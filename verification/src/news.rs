//! Messages with news.
use crate::decoder::Decoder;
use crate::event::Event;
use crate::fields::{count_at, flag_at, int_at, Reader};
use crate::types::NewsProvider;
use vstd::prelude::*;

verus! {

/// What a message with a news article tells.
pub open spec fn news_article_event(f: Seq<String>) -> Option<Event> {
    if f.len() >= 4 {
        Some(
            Event::NewsArticle {
                req_id: int_at(f, 1),
                article_type: int_at(f, 2),
                article_text: f[3],
            },
        )
    } else {
        None
    }
}

/// What a news bulletin tells.
pub open spec fn news_bulletins_event(f: Seq<String>) -> Option<Event> {
    if f.len() >= 6 {
        Some(
            Event::UpdateNewsBulletin {
                msg_id: int_at(f, 2),
                msg_type: int_at(f, 3),
                message: f[4],
                originating_exch: f[5],
            },
        )
    } else {
        None
    }
}

/// The news providers in fields `start` and on.
pub open spec fn news_providers(f: Seq<String>, start: int, n: nat) -> Seq<NewsProvider> {
    Seq::new(n, |i: int| NewsProvider { code: f[start + 2 * i], name: f[start + 2 * i + 1] })
}

/// Whether a message on news providers has all its fields.
pub open spec fn news_providers_complete(f: Seq<String>) -> bool {
    f.len() >= 2 + 2 * count_at(f, 1)
}

/// Whether `e` is the event of a message on news providers.
pub open spec fn is_news_providers(f: Seq<String>, e: Event) -> bool {
    e matches Event::NewsProviders { news_providers: providers } && providers@ == news_providers(
        f,
        2,
        count_at(f, 1),
    )
}

/// What a message with an old headline tells.
pub open spec fn historical_news_event(f: Seq<String>) -> Option<Event> {
    if f.len() >= 6 {
        Some(
            Event::HistoricalNews {
                req_id: int_at(f, 1),
                time: f[2],
                provider_code: f[3],
                article_id: f[4],
                headline: f[5],
            },
        )
    } else {
        None
    }
}

/// What the end of the old headlines tells.
pub open spec fn historical_news_end_event(f: Seq<String>) -> Option<Event> {
    if f.len() >= 2 {
        Some(Event::HistoricalNewsEnd { req_id: int_at(f, 1), has_more: flag_at(f, 2) })
    } else {
        None
    }
}

/// What a message with a headline tells.
pub open spec fn tick_news_event(f: Seq<String>) -> Option<Event> {
    if f.len() >= 7 {
        Some(
            Event::TickNews {
                req_id: int_at(f, 1),
                time_stamp: int_at(f, 2),
                provider_code: f[3],
                article_id: f[4],
                headline: f[5],
                extra_data: f[6],
            },
        )
    } else {
        None
    }
}

impl Decoder {
    /// Reads a message with a news article.
    pub fn process_news_article(fields: &[String]) -> (r: Option<Event>)
        ensures
            r == news_article_event(fields@),
    {
        let mut reader = Reader::new(fields);
        reader.skip();
        let req_id: i32 = reader.next_i32()?;
        let article_type: i32 = reader.next_i32()?;
        let article_text = reader.next_text()?;
        Some(Event::NewsArticle { req_id, article_type, article_text })
    }

    /// Reads a news bulletin.
    pub fn process_news_bulletins(fields: &[String]) -> (r: Option<Event>)
        ensures
            r == news_bulletins_event(fields@),
    {
        let mut reader = Reader::new(fields);
        reader.skip();
        reader.skip();
        let msg_id: i32 = reader.next_i32()?;
        let msg_type: i32 = reader.next_i32()?;
        let message = reader.next_text()?;
        let originating_exch = reader.next_text()?;
        Some(Event::UpdateNewsBulletin { msg_id, msg_type, message, originating_exch })
    }

    /// Reads a message on news providers.
    pub fn process_news_providers(fields: &[String]) -> (r: Option<Event>)
        ensures
            r is Some <==> news_providers_complete(fields@),
            r is Some ==> is_news_providers(fields@, r->0),
    {
        let mut reader = Reader::new(fields);
        reader.skip();
        let count: i32 = reader.next_i32()?;
        let mut providers: Vec<NewsProvider> = Vec::new();
        let mut i: i32 = 0;
        while i < count
            invariant
                reader.wf(),
                reader.all() == fields@,
                fields@.len() >= 2,
                count == int_at(fields@, 1),
                0 <= i,
                i <= count || i == 0,
                reader.at() == 2 + 2 * i,
                providers@ == news_providers(fields@, 2, i as nat),
            decreases count - i,
        {
            let code = reader.next_text()?;
            let name = reader.next_text()?;
            providers.push(NewsProvider { code, name });
            i = i + 1;
        }
        Some(Event::NewsProviders { news_providers: providers })
    }

    /// Reads a message with an old headline.
    pub fn process_historical_news(fields: &[String]) -> (r: Option<Event>)
        ensures
            r == historical_news_event(fields@),
    {
        let mut reader = Reader::new(fields);
        reader.skip();
        let req_id: i32 = reader.next_i32()?;
        let time = reader.next_text()?;
        let provider_code = reader.next_text()?;
        let article_id = reader.next_text()?;
        let headline = reader.next_text()?;
        Some(Event::HistoricalNews { req_id, time, provider_code, article_id, headline })
    }

    /// Reads the end of the old headlines.
    pub fn process_historical_news_end(fields: &[String]) -> (r: Option<Event>)
        ensures
            r == historical_news_end_event(fields@),
    {
        let mut reader = Reader::new(fields);
        reader.skip();
        let req_id: i32 = reader.next_i32()?;
        let has_more = reader.next_flag();
        Some(Event::HistoricalNewsEnd { req_id, has_more })
    }

    /// Reads a message with a headline.
    pub fn process_tick_news(fields: &[String]) -> (r: Option<Event>)
        ensures
            r == tick_news_event(fields@),
    {
        let mut reader = Reader::new(fields);
        reader.skip();
        let req_id: i32 = reader.next_i32()?;
        let time_stamp: i32 = reader.next_i32()?;
        let provider_code = reader.next_text()?;
        let article_id = reader.next_text()?;
        let headline = reader.next_text()?;
        let extra_data = reader.next_text()?;
        Some(
            Event::TickNews { req_id, time_stamp, provider_code, article_id, headline, extra_data },
        )
    }
}

} // verus!

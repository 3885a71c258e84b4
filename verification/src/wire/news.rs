//! Messages with news.
use crate::codes::IncomingMessageIds;
use crate::decoder::{is_any_interpretation, Interpretation};
use crate::event::Event;
use crate::news::news_providers;
use crate::types::NewsProvider;
use crate::wire::{counts, lemma_kind, lemma_one_by_one, number, one_by_one, writes};
use vstd::prelude::*;

verus! {

/// An article is told as it was written.
pub proof fn lemma_news_article(
    server_version: i32,
    id: String,
    req_id: String,
    article_type: String,
    article_text: String,
    r: Interpretation,
)
    requires
        writes(id, 83),
        is_any_interpretation(server_version, seq![id, req_id, article_type, article_text], r),
    ensures
        r.ending is Done,
        r.events@ == seq![
            Event::NewsArticle {
                req_id: number(req_id),
                article_type: number(article_type),
                article_text,
            },
        ],
{
    let f = seq![id, req_id, article_type, article_text];
    lemma_kind(server_version, f, IncomingMessageIds::NewsArticle, r);
}

/// A bulletin is told as it was written.
pub proof fn lemma_news_bulletins(
    server_version: i32,
    id: String,
    version: String,
    msg_id: String,
    msg_type: String,
    message: String,
    originating_exch: String,
    r: Interpretation,
)
    requires
        writes(id, 14),
        is_any_interpretation(
            server_version,
            seq![id, version, msg_id, msg_type, message, originating_exch],
            r,
        ),
    ensures
        r.ending is Done,
        r.events@ == seq![
            Event::UpdateNewsBulletin {
                msg_id: number(msg_id),
                msg_type: number(msg_type),
                message,
                originating_exch,
            },
        ],
{
    let f = seq![id, version, msg_id, msg_type, message, originating_exch];
    lemma_kind(server_version, f, IncomingMessageIds::NewsBulletins, r);
}

/// An old headline is told as it was written.
pub proof fn lemma_historical_news(
    server_version: i32,
    id: String,
    req_id: String,
    time: String,
    provider_code: String,
    article_id: String,
    headline: String,
    r: Interpretation,
)
    requires
        writes(id, 86),
        is_any_interpretation(
            server_version,
            seq![id, req_id, time, provider_code, article_id, headline],
            r,
        ),
    ensures
        r.ending is Done,
        r.events@ == seq![
            Event::HistoricalNews {
                req_id: number(req_id),
                time,
                provider_code,
                article_id,
                headline,
            },
        ],
{
    let f = seq![id, req_id, time, provider_code, article_id, headline];
    lemma_kind(server_version, f, IncomingMessageIds::HistoricalNews, r);
}

/// The end of the old headlines is told as it was written.
pub proof fn lemma_historical_news_end(
    server_version: i32,
    id: String,
    req_id: String,
    has_more: String,
    r: Interpretation,
)
    requires
        writes(id, 87),
        is_any_interpretation(server_version, seq![id, req_id, has_more], r),
    ensures
        r.ending is Done,
        r.events@ == seq![
            Event::HistoricalNewsEnd {
                req_id: number(req_id),
                has_more: number(has_more) != 0,
            },
        ],
{
    let f = seq![id, req_id, has_more];
    lemma_kind(server_version, f, IncomingMessageIds::HistoricalNewsEnd, r);
}

/// A headline is told as it was written.
pub proof fn lemma_tick_news(
    server_version: i32,
    id: String,
    req_id: String,
    time_stamp: String,
    provider_code: String,
    article_id: String,
    headline: String,
    extra_data: String,
    r: Interpretation,
)
    requires
        writes(id, 84),
        is_any_interpretation(
            server_version,
            seq![id, req_id, time_stamp, provider_code, article_id, headline, extra_data],
            r,
        ),
    ensures
        r.ending is Done,
        r.events@ == seq![
            Event::TickNews {
                req_id: number(req_id),
                time_stamp: number(time_stamp),
                provider_code,
                article_id,
                headline,
                extra_data,
            },
        ],
{
    let f = seq![id, req_id, time_stamp, provider_code, article_id, headline, extra_data];
    lemma_kind(server_version, f, IncomingMessageIds::TickNews, r);
}

/// A missing flag at the end of the old headlines is one that is not set.
pub proof fn lemma_historical_news_end_short(
    server_version: i32,
    id: String,
    req_id: String,
    r: Interpretation,
)
    requires
        writes(id, 87),
        is_any_interpretation(server_version, seq![id, req_id], r),
    ensures
        r.ending is Done,
        r.events@ == seq![Event::HistoricalNewsEnd { req_id: number(req_id), has_more: false }],
{
    lemma_kind(server_version, seq![id, req_id], IncomingMessageIds::HistoricalNewsEnd, r);
}

/// A news provider, field by field.
pub struct NewsProviderFields {
    pub code: String,
    pub name: String,
}

impl NewsProviderFields {
    /// The entry as a server sends it.
    pub open spec fn written(self) -> Seq<String> {
        seq![self.code, self.name]
    }

    /// The entry that is meant.
    pub open spec fn meant(self) -> NewsProvider {
        NewsProvider {
            code: self.code,
            name: self.name,
        }
    }
}

/// News providers are told as they were written.
#[verifier::spinoff_prover]
pub proof fn lemma_news_providers(
    server_version: i32,
    id: String,
    count: String,
    entries: Seq<NewsProviderFields>,
    r: Interpretation,
)
    requires
        writes(id, 85),
        counts(count, entries.len()),
        is_any_interpretation(
            server_version,
            seq![id, count] + one_by_one(
                entries.map_values(|e: NewsProviderFields| e.written()),
            ),
            r,
        ),
    ensures
        r.ending is Done,
        r.events@.len() == 1,
        r.events@[0] matches Event::NewsProviders { news_providers: items } && {
            &&& items@ == entries.map_values(|e: NewsProviderFields| e.meant())
        },
{
    let parts = entries.map_values(|e: NewsProviderFields| e.written());
    let meant = entries.map_values(|e: NewsProviderFields| e.meant());
    let f = seq![id, count] + one_by_one(parts);
    assert(one_by_one(parts).len() == 2 * entries.len()) by {
        lemma_one_by_one(parts, 2);
    }
    assert(f[0] == id && f[1] == count);
    assert(news_providers(f, 2, entries.len()) == meant) by {
        lemma_one_by_one(parts, 2);
        let read = news_providers(f, 2, entries.len());
        assert forall|i: int| 0 <= i < entries.len() implies read[i] == #[trigger] meant[i] by {
            let part = parts[i];
            assert(part[0] == entries[i].code);
            assert(part[1] == entries[i].name);
        }
        assert(read =~= meant);
    }
    lemma_kind(server_version, f, IncomingMessageIds::NewsProviders, r);
}

} // verus!

//! Messages with what a search found: symbols, option chains, market scans.
use crate::decoder::Decoder;
use crate::event::Event;
use crate::fields::{count_at, double_at, int_at, Reader};
use crate::number::Double;
use crate::text::texts;
use crate::types::{
    Contract, ContractDescription, ContractDescriptionView, ContractDetails, ContractDetailsView,
    ContractView,
};
use vstd::prelude::*;

verus! {

/// Where sample `k` of a symbol search begins: each ends with a list of its own.
pub open spec fn sample_start(f: Seq<String>, k: nat) -> int
    decreases k,
{
    if k == 0 {
        3
    } else {
        let p = sample_start(f, (k - 1) as nat);
        p + 6 + count_at(f, p + 5)
    }
}

/// The sample of a symbol search that begins at field `p`.
pub open spec fn sample_at(f: Seq<String>, p: int) -> ContractDescriptionView {
    ContractDescriptionView {
        contract: ContractView {
            con_id: int_at(f, p),
            symbol: f[p + 1]@,
            sec_type: f[p + 2]@,
            primary_exchange: f[p + 3]@,
            currency: f[p + 4]@,
            ..ContractView::blank()
        },
        derivative_sec_types: f.subrange(p + 6, p + 6 + count_at(f, p + 5)),
    }
}

/// Whether a message with what a symbol search found has all its fields.
pub open spec fn symbol_samples_complete(f: Seq<String>) -> bool {
    f.len() >= 3 && f.len() >= sample_start(f, count_at(f, 2))
}

/// Whether `e` is the event of a message with what a symbol search found.
pub open spec fn is_symbol_samples(f: Seq<String>, e: Event) -> bool {
    e matches Event::SymbolSamples { req_id, contract_descriptions } && {
        &&& req_id == int_at(f, 1)
        &&& contract_descriptions@.len() == count_at(f, 2)
        &&& forall|k: int|
            0 <= k < contract_descriptions@.len() ==> (#[trigger] contract_descriptions@[k])@
                == sample_at(f, sample_start(f, k as nat))
    }
}

/// Samples come one after the other.
pub proof fn lemma_sample_start_grows(f: Seq<String>, j: nat, k: nat)
    requires
        j <= k,
    ensures
        sample_start(f, j) <= sample_start(f, k),
    decreases k,
{
    if j < k {
        lemma_sample_start_grows(f, j, (k - 1) as nat);
    }
}

/// The texts in fields `start` to `end`, without regard to order and repetition.
pub open spec fn text_set(f: Seq<String>, start: int, end: int) -> Set<Seq<char>> {
    texts(f.subrange(start, end)).to_set()
}

/// The strikes in fields `start` and on.
pub open spec fn strikes(f: Seq<String>, start: int, n: nat) -> Seq<Double> {
    Seq::new(n, |i: int| double_at(f, start + i))
}

/// The field with the number of strikes.
pub open spec fn strike_count_field(f: Seq<String>) -> int {
    (7 + count_at(f, 6)) as int
}

/// Whether a message on an option chain has all its fields.
pub open spec fn option_parameter_complete(f: Seq<String>) -> bool {
    f.len() >= strike_count_field(f) + 1 + count_at(f, strike_count_field(f))
}

/// Whether `e` is the event of a message on an option chain.
pub open spec fn is_option_parameter(f: Seq<String>, e: Event) -> bool {
    let s = strike_count_field(f);
    e matches Event::SecurityDefinitionOptionParameter {
        req_id,
        exchange,
        underlying_con_id,
        trading_class,
        multiplier,
        expirations,
        strikes: prices,
    } && {
        &&& req_id == int_at(f, 1)
        &&& exchange == f[2]
        &&& underlying_con_id == int_at(f, 3)
        &&& trading_class == f[4]
        &&& multiplier == f[5]
        &&& texts(expirations@).no_duplicates()
        &&& texts(expirations@).to_set() == text_set(f, 7, s)
        &&& prices@ == strikes(f, s + 1, count_at(f, s))
    }
}

/// What the end of an option chain tells.
pub open spec fn option_parameter_end_event(f: Seq<String>) -> Option<Event> {
    if f.len() >= 2 {
        Some(Event::SecurityDefinitionOptionParameterEnd { req_id: int_at(f, 1) })
    } else {
        None
    }
}

/// The details in the entry of a market scan that begins at field `p`.
pub open spec fn scan_details(f: Seq<String>, p: int) -> ContractDetailsView {
    ContractDetailsView {
        contract: ContractView {
            con_id: int_at(f, p + 1),
            symbol: f[p + 2]@,
            sec_type: f[p + 3]@,
            last_trade_date_or_contract_month: f[p + 4]@,
            strike: double_at(f, p + 5),
            right: f[p + 6]@,
            exchange: f[p + 7]@,
            currency: f[p + 8]@,
            local_symbol: f[p + 9]@,
            trading_class: f[p + 11]@,
            ..ContractView::blank()
        },
        market_name: f[p + 10]@,
        ..ContractDetailsView::blank()
    }
}

/// Whether `e` is the event of the entry of a market scan that begins at field `p`.
pub open spec fn is_scan_entry(f: Seq<String>, p: int, e: Event) -> bool {
    e matches Event::ScannerData {
        req_id,
        rank,
        details,
        distance,
        benchmark,
        projection,
        legs,
    } && {
        &&& req_id == int_at(f, 2)
        &&& rank == int_at(f, p)
        &&& details@ == scan_details(f, p)
        &&& distance == f[p + 12]
        &&& benchmark == f[p + 13]
        &&& projection == f[p + 14]
        &&& legs == f[p + 15]
    }
}

/// Whether a market scan message has all its fields.
pub open spec fn scanner_data_complete(f: Seq<String>) -> bool {
    f.len() >= 4 + 16 * count_at(f, 3)
}

/// Whether `events` is what a market scan message tells: each entry, then the end.
pub open spec fn are_scanner_data(f: Seq<String>, events: Seq<Event>) -> bool {
    &&& events.len() == count_at(f, 3) + 1
    &&& forall|i: int|
        0 <= i < count_at(f, 3) ==> is_scan_entry(f, 4 + 16 * i, #[trigger] events[i])
    &&& events.last() == Event::ScannerDataEnd { req_id: int_at(f, 2) }
}

/// How many entries stand in full in a market scan message that breaks off.
pub open spec fn leading_scan_entries(f: Seq<String>) -> nat {
    if f.len() < 4 {
        0
    } else {
        ((f.len() - 4) / 16) as nat
    }
}

/// Whether `events` is what a market scan message tells that breaks off: the entries before that.
pub open spec fn are_leading_scan_entries(f: Seq<String>, events: Seq<Event>) -> bool {
    &&& events.len() == leading_scan_entries(f)
    &&& forall|i: int|
        0 <= i < events.len() ==> is_scan_entry(f, 4 + 16 * i, #[trigger] events[i])
}

/// What a message with the parameters of market scans tells.
pub open spec fn scanner_parameters_event(f: Seq<String>) -> Option<Event> {
    if f.len() >= 3 {
        Some(Event::ScannerParameters { xml: f[2] })
    } else {
        None
    }
}

/// Adds a text to a list unless the list has it already.
fn insert_text(list: &mut Vec<String>, text: String)
    requires
        texts(old(list)@).no_duplicates(),
    ensures
        texts(final(list)@).no_duplicates(),
        texts(final(list)@).to_set() == texts(old(list)@).to_set().insert(text@),
{
    let ghost before = list@;
    let mut i: usize = 0;
    while i < list.len()
        invariant
            list@ == before,
            before == old(list)@,
            texts(before).no_duplicates(),
            i <= list@.len(),
            forall|k: int| 0 <= k < i ==> list@[k]@ != text@,
        decreases list@.len() - i,
    {
        if list[i] == text {
            assert(texts(before)[i as int] == text@);
            assert(texts(before).to_set().insert(text@) =~= texts(before).to_set());
            return ;
        }
        i = i + 1;
    }
    let ghost added = text@;
    list.push(text);
    assert(texts(list@) =~= texts(before).push(added));
    assert(texts(list@).to_set() =~= texts(before).to_set().insert(added)) by {
        assert forall|t: Seq<char>| texts(before).push(added).contains(t) implies texts(
            before,
        ).to_set().insert(added).contains(t) by {
            let k = choose|k: int|
                0 <= k < texts(before).push(added).len() && texts(before).push(added)[k] == t;
            if k < texts(before).len() {
                assert(texts(before)[k] == t);
            }
        }
        assert forall|t: Seq<char>| texts(before).to_set().insert(added).contains(t) implies texts(
            before,
        ).push(added).contains(t) by {
            if t == added {
                assert(texts(before).push(added)[texts(before).len() as int] == t);
            } else {
                let k = choose|k: int| 0 <= k < texts(before).len() && texts(before)[k] == t;
                assert(texts(before).push(added)[k] == t);
            }
        }
    }
}

/// Reads an entry of a market scan.
fn next_scan_entry(reader: &mut Reader, req_id: i32) -> (r: Option<Event>)
    requires
        old(reader).wf(),
        old(reader).all().len() > 2,
        req_id == int_at(old(reader).all(), 2),
    ensures
        final(reader).wf(),
        final(reader).all() == old(reader).all(),
        r is Some <==> old(reader).at() + 16 <= old(reader).all().len(),
        r is Some ==> {
            &&& final(reader).at() == old(reader).at() + 16
            &&& is_scan_entry(old(reader).all(), old(reader).at(), r->0)
        },
{
    let rank: i32 = reader.next_i32()?;
    let con_id: i32 = reader.next_i32()?;
    let symbol = reader.next_text()?;
    let sec_type = reader.next_text()?;
    let last_trade_date_or_contract_month = reader.next_text()?;
    let strike = reader.next_double()?;
    let right = reader.next_text()?;
    let exchange = reader.next_text()?;
    let currency = reader.next_text()?;
    let local_symbol = reader.next_text()?;
    let market_name = reader.next_text()?;
    let trading_class = reader.next_text()?;
    let distance = reader.next_text()?;
    let benchmark = reader.next_text()?;
    let projection = reader.next_text()?;
    let legs = reader.next_text()?;
    let details = ContractDetails {
        contract: Contract {
            con_id,
            symbol,
            sec_type,
            last_trade_date_or_contract_month,
            strike,
            right,
            exchange,
            currency,
            local_symbol,
            trading_class,
            ..Contract::default()
        },
        market_name,
        ..ContractDetails::default()
    };
    Some(Event::ScannerData { req_id, rank, details, distance, benchmark, projection, legs })
}

impl Decoder {
    /// Reads a message with what a symbol search found.
    pub fn process_symbol_samples(fields: &[String]) -> (r: Option<Event>)
        ensures
            r is Some <==> symbol_samples_complete(fields@),
            r is Some ==> is_symbol_samples(fields@, r->0),
    {
        let mut reader = Reader::new(fields);
        reader.skip();
        let req_id: i32 = reader.next_i32()?;
        let count: i32 = reader.next_i32()?;
        let ghost f = fields@;
        let mut contract_descriptions: Vec<ContractDescription> = Vec::new();
        let mut i: i32 = 0;
        while i < count
            invariant
                reader.wf(),
                reader.all() == f,
                f == fields@,
                f.len() >= 3,
                count == int_at(f, 2),
                0 <= i,
                i <= count || i == 0,
                reader.at() == sample_start(f, i as nat),
                contract_descriptions@.len() == i,
                forall|k: int|
                    0 <= k < i ==> (#[trigger] contract_descriptions@[k])@ == sample_at(
                        f,
                        sample_start(f, k as nat),
                    ),
            decreases count - i,
        {
            let ghost p = reader.at();
            proof {
                lemma_sample_start_grows(f, (i + 1) as nat, count as nat);
                assert(sample_start(f, (i + 1) as nat) == p + 6 + count_at(f, p + 5));
            }
            let con_id: i32 = reader.next_i32()?;
            let symbol = reader.next_text()?;
            let sec_type = reader.next_text()?;
            let primary_exchange = reader.next_text()?;
            let currency = reader.next_text()?;
            let derivatives: i32 = reader.next_i32()?;
            let mut derivative_sec_types: Vec<String> = Vec::new();
            let mut j: i32 = 0;
            while j < derivatives
                invariant
                    reader.wf(),
                    reader.all() == f,
                    f == fields@,
                    f.len() >= 3,
                    0 <= p,
                    p + 6 <= f.len(),
                    derivatives == int_at(f, p + 5),
                    0 <= j,
                    j <= derivatives || j == 0,
                    reader.at() == p + 6 + j,
                    derivative_sec_types@ == f.subrange(p + 6, p + 6 + j),
                    p + 6 + count_at(f, p + 5) <= sample_start(f, count_at(f, 2)),
                decreases derivatives - j,
            {
                let derivative = reader.next_text()?;
                derivative_sec_types.push(derivative);
                j = j + 1;
            }
            let contract = Contract {
                con_id,
                symbol,
                sec_type,
                primary_exchange,
                currency,
                ..Contract::default()
            };
            contract_descriptions.push(ContractDescription { contract, derivative_sec_types });
            i = i + 1;
        }
        Some(Event::SymbolSamples { req_id, contract_descriptions })
    }

    /// Reads a message on an option chain.
    pub fn process_security_definition_option_parameter(fields: &[String]) -> (r: Option<Event>)
        ensures
            r is Some <==> option_parameter_complete(fields@),
            r is Some ==> is_option_parameter(fields@, r->0),
    {
        let mut reader = Reader::new(fields);
        reader.skip();
        let req_id: i32 = reader.next_i32()?;
        let exchange = reader.next_text()?;
        let underlying_con_id: i32 = reader.next_i32()?;
        let trading_class = reader.next_text()?;
        let multiplier = reader.next_text()?;
        let exp_count: i32 = reader.next_i32()?;
        let ghost f = fields@;
        let mut expirations: Vec<String> = Vec::new();
        let mut i: i32 = 0;
        assert(texts(expirations@).to_set() =~= text_set(f, 7, 7));
        while i < exp_count
            invariant
                reader.wf(),
                reader.all() == f,
                f == fields@,
                f.len() >= 7,
                exp_count == int_at(f, 6),
                0 <= i,
                i <= exp_count || i == 0,
                reader.at() == 7 + i,
                texts(expirations@).no_duplicates(),
                texts(expirations@).to_set() == text_set(f, 7, 7 + i),
            decreases exp_count - i,
        {
            let expiration = reader.next_text()?;
            insert_text(&mut expirations, expiration);
            i = i + 1;
            proof {
                lemma_text_set_grows(f, 7, 7 + i - 1);
            }
        }
        let strike_count: i32 = reader.next_i32()?;
        let ghost s = strike_count_field(f);
        let mut prices: Vec<Double> = Vec::new();
        let mut j: i32 = 0;
        while j < strike_count
            invariant
                reader.wf(),
                reader.all() == f,
                f == fields@,
                s == strike_count_field(f),
                f.len() >= s + 1,
                strike_count == int_at(f, s),
                0 <= j,
                j <= strike_count || j == 0,
                reader.at() == s + 1 + j,
                prices@ == strikes(f, s + 1, j as nat),
            decreases strike_count - j,
        {
            let strike = reader.next_double()?;
            prices.push(strike);
            j = j + 1;
        }
        Some(
            Event::SecurityDefinitionOptionParameter {
                req_id,
                exchange,
                underlying_con_id,
                trading_class,
                multiplier,
                expirations,
                strikes: prices,
            },
        )
    }

    /// Reads the end of an option chain.
    pub fn process_security_definition_option_parameter_end(fields: &[String]) -> (r: Option<Event>)
        ensures
            r == option_parameter_end_event(fields@),
    {
        let mut reader = Reader::new(fields);
        reader.skip();
        let req_id: i32 = reader.next_i32()?;
        Some(Event::SecurityDefinitionOptionParameterEnd { req_id })
    }

    /// Reads a market scan message. Where it breaks off, the entries before that are all that it
    /// tells; they are handed back in place of the whole.
    pub fn process_scanner_data(fields: &[String]) -> (r: Result<Vec<Event>, Vec<Event>>)
        ensures
            r is Ok <==> scanner_data_complete(fields@),
            r is Ok ==> are_scanner_data(fields@, r->Ok_0@),
            r is Err ==> are_leading_scan_entries(fields@, r->Err_0@),
    {
        let mut reader = Reader::new(fields);
        reader.skip();
        reader.skip();
        let mut events: Vec<Event> = Vec::new();
        let req_id: i32 = match reader.next_i32() {
            Some(value) => value,
            None => return Err(events),
        };
        let number_of_elements: i32 = match reader.next_i32() {
            Some(value) => value,
            None => return Err(events),
        };
        let mut i: i32 = 0;
        while i < number_of_elements
            invariant
                reader.wf(),
                reader.all() == fields@,
                fields@.len() >= 4,
                req_id == int_at(fields@, 2),
                number_of_elements == int_at(fields@, 3),
                0 <= i,
                i <= number_of_elements || i == 0,
                reader.at() == 4 + 16 * i,
                events@.len() == i,
                forall|k: int|
                    0 <= k < i ==> is_scan_entry(fields@, 4 + 16 * k, #[trigger] events@[k]),
            decreases number_of_elements - i,
        {
            match next_scan_entry(&mut reader, req_id) {
                Some(entry) => {
                    events.push(entry);
                },
                None => {
                    assert(leading_scan_entries(fields@) == i);
                    return Err(events);
                },
            }
            i = i + 1;
        }
        events.push(Event::ScannerDataEnd { req_id });
        Ok(events)
    }

    /// Reads a message with the parameters of market scans.
    pub fn process_scanner_parameters(fields: &[String]) -> (r: Option<Event>)
        ensures
            r == scanner_parameters_event(fields@),
    {
        let mut reader = Reader::new(fields);
        reader.skip();
        reader.skip();
        let xml = reader.next_text()?;
        Some(Event::ScannerParameters { xml })
    }
}

/// One more field adds its text to the set.
proof fn lemma_text_set_grows(f: Seq<String>, start: int, end: int)
    requires
        0 <= start <= end < f.len(),
    ensures
        text_set(f, start, end + 1) == text_set(f, start, end).insert(f[end]@),
{
    let short = texts(f.subrange(start, end));
    let long = texts(f.subrange(start, end + 1));
    assert(long =~= short.push(f[end]@));
    assert forall|t: Seq<char>| long.contains(t) implies short.to_set().insert(
        f[end]@,
    ).contains(t) by {
        let k = choose|k: int| 0 <= k < long.len() && long[k] == t;
        if k < short.len() {
            assert(short[k] == t);
        }
    }
    assert forall|t: Seq<char>| short.to_set().insert(f[end]@).contains(t) implies long.contains(
        t,
    ) by {
        if t == f[end]@ {
            assert(long[short.len() as int] == t);
        } else {
            let k = choose|k: int| 0 <= k < short.len() && short[k] == t;
            assert(long[k] == t);
        }
    }
    assert(long.to_set() =~= short.to_set().insert(f[end]@));
}

} // verus!

//! Messages with what a search found.
use crate::codes::IncomingMessageIds;
use crate::decoder::{is_any_interpretation, Interpretation};
use crate::event::Event;
use crate::lookup::{is_scan_entry, leading_scan_entries, sample_at, sample_start};
use crate::number::Double;
use crate::text::texts;
use crate::types::ContractDescription;
use crate::wire::{
    begins, counts, lemma_all, lemma_kind, lemma_one_by_one, lemma_part, number, one_by_one, stands,
    writes,
};
use vstd::prelude::*;

verus! {

/// The end of an option chain is told as it was written.
pub proof fn lemma_option_parameter_end(
    server_version: i32,
    id: String,
    req_id: String,
    r: Interpretation,
)
    requires
        writes(id, 76),
        is_any_interpretation(server_version, seq![id, req_id], r),
    ensures
        r.ending is Done,
        r.events@ == seq![Event::SecurityDefinitionOptionParameterEnd { req_id: number(req_id) }],
{
    let f = seq![id, req_id];
    lemma_kind(server_version, f, IncomingMessageIds::SecurityDefinitionOptionParameterEnd, r);
}

/// The parameters of market scans are told as they were written.
pub proof fn lemma_scanner_parameters(
    server_version: i32,
    id: String,
    version: String,
    xml: String,
    r: Interpretation,
)
    requires
        writes(id, 19),
        is_any_interpretation(server_version, seq![id, version, xml], r),
    ensures
        r.ending is Done,
        r.events@ == seq![Event::ScannerParameters { xml }],
{
    lemma_kind(server_version, seq![id, version, xml], IncomingMessageIds::ScannerParameters, r);
}

/// A contract that a symbol search found, field by field, with the derivatives that there are on
/// it.
pub struct SampleFields {
    pub con_id: String,
    pub symbol: String,
    pub sec_type: String,
    pub primary_exchange: String,
    pub currency: String,
    pub derivative_count: String,
    pub derivatives: Seq<String>,
}

impl SampleFields {
    /// The contract as a server sends it.
    pub open spec fn written(self) -> Seq<String> {
        seq![
            self.con_id,
            self.symbol,
            self.sec_type,
            self.primary_exchange,
            self.currency,
            self.derivative_count,
        ] + self.derivatives
    }

    /// Whether the count is that of the derivatives.
    pub open spec fn counted(self) -> bool {
        counts(self.derivative_count, self.derivatives.len())
    }

    /// Whether `d` describes the contract, and nothing that was not sent.
    pub open spec fn described(self, d: ContractDescription) -> bool {
        &&& d.contract.con_id == number(self.con_id)
        &&& d.contract.symbol@ == self.symbol@
        &&& d.contract.sec_type@ == self.sec_type@
        &&& d.contract.last_trade_date_or_contract_month@ == Seq::<char>::empty()
        &&& d.contract.strike == Double::Whole(0)
        &&& d.contract.right@ == Seq::<char>::empty()
        &&& d.contract.multiplier@ == Seq::<char>::empty()
        &&& d.contract.exchange@ == Seq::<char>::empty()
        &&& d.contract.primary_exchange@ == self.primary_exchange@
        &&& d.contract.currency@ == self.currency@
        &&& d.contract.local_symbol@ == Seq::<char>::empty()
        &&& d.contract.trading_class@ == Seq::<char>::empty()
        &&& d.derivative_sec_types@ == self.derivatives
    }
}

/// The fields of samples, one sample after the other.
pub open spec fn samples_written(samples: Seq<SampleFields>) -> Seq<String> {
    one_by_one(samples.map_values(|s: SampleFields| s.written()))
}

/// What a symbol search found is told as it was written.
pub proof fn lemma_symbol_samples(
    server_version: i32,
    id: String,
    req_id: String,
    count: String,
    samples: Seq<SampleFields>,
    r: Interpretation,
)
    requires
        writes(id, 79),
        counts(count, samples.len()),
        forall|k: int| 0 <= k < samples.len() ==> (#[trigger] samples[k]).counted(),
        is_any_interpretation(
            server_version,
            seq![id, req_id, count] + samples_written(samples),
            r,
        ),
    ensures
        r.ending is Done,
        r.events@.len() == 1,
        r.events@[0] matches Event::SymbolSamples { req_id: request, contract_descriptions } && {
            &&& request == number(req_id)
            &&& contract_descriptions@.len() == samples.len()
            &&& forall|k: int|
                0 <= k < samples.len() ==> samples[k].described(
                    #[trigger] contract_descriptions@[k],
                )
        },
{
    let f = seq![id, req_id, count] + samples_written(samples);
    assert(f[0] == id && f[1] == req_id && f[2] == count);
    lemma_all(f);
    lemma_symbol_samples_read(server_version, seq![id, req_id, count], samples, f, r);
}

/// What is read of the fields of such a message.
proof fn lemma_symbol_samples_read(
    server_version: i32,
    head: Seq<String>,
    samples: Seq<SampleFields>,
    f: Seq<String>,
    r: Interpretation,
)
    requires
        head.len() == 3,
        f.len() == 3 + samples_written(samples).len(),
        begins(f, head + samples_written(samples)),
        writes(f[0], 79),
        counts(f[2], samples.len()),
        forall|k: int| 0 <= k < samples.len() ==> (#[trigger] samples[k]).counted(),
        is_any_interpretation(server_version, f, r),
    ensures
        r.ending is Done,
        r.events@.len() == 1,
        r.events@[0] matches Event::SymbolSamples { req_id: request, contract_descriptions } && {
            &&& request == number(f[1])
            &&& contract_descriptions@.len() == samples.len()
            &&& forall|k: int|
                0 <= k < samples.len() ==> samples[k].described(
                    #[trigger] contract_descriptions@[k],
                )
        },
{
    let n = samples.len() as int;
    assert(samples.take(n) =~= samples);
    lemma_sample_starts(head, samples, f, n);
    lemma_kind(server_version, f, IncomingMessageIds::SymbolSamples, r);
    let descriptions = r.events@[0]->contract_descriptions@;
    assert forall|k: int| 0 <= k < samples.len() implies samples[k].described(
        #[trigger] descriptions[k],
    ) by {
        lemma_sample_starts(head, samples, f, k);
        lemma_sample_stands(head, samples, f, k);
        let p = sample_start(f, k as nat);
        let d = samples[k].derivatives;
        assert(f.subrange(p + 6, p + 6 + d.len()) =~= d) by {
            assert forall|j: int| 0 <= j < d.len() implies f[p + 6 + j] == d[j] by {
                assert(samples[k].written()[6 + j] == d[j]);
                reveal(stands);
            }
            reveal(stands);
        }
        assert(descriptions[k]@ == sample_at(f, p));
        assert(descriptions[k].derivative_sec_types@ == sample_at(f, p).derivative_sec_types);
    }
}

/// Where the first `k` samples end, the next one begins.
proof fn lemma_sample_starts(
    head: Seq<String>,
    samples: Seq<SampleFields>,
    f: Seq<String>,
    k: int,
)
    requires
        0 <= k <= samples.len(),
        head.len() == 3,
        begins(f, head + samples_written(samples)),
        forall|i: int| 0 <= i < samples.len() ==> (#[trigger] samples[i]).counted(),
    ensures
        sample_start(f, k as nat) == 3 + samples_written(samples.take(k)).len(),
    decreases k,
{
    if k == 0 {
        assert(samples.take(0) =~= seq![]);
        assert(samples.take(0).map_values(|s: SampleFields| s.written()) =~= seq![]);
    } else {
        lemma_sample_starts(head, samples, f, k - 1);
        lemma_sample_stands(head, samples, f, k - 1);
        lemma_one_more(samples, k - 1);
        assert(samples[k - 1].counted());
    }
}

/// One more sample is written after those before it.
proof fn lemma_one_more(samples: Seq<SampleFields>, k: int)
    requires
        0 <= k < samples.len(),
    ensures
        samples_written(samples.take(k + 1)) == samples_written(samples.take(k))
            + samples[k].written(),
{
    let parts = samples.take(k + 1).map_values(|s: SampleFields| s.written());
    assert(parts.drop_last() =~= samples.take(k).map_values(|s: SampleFields| s.written()));
    assert(parts.last() == samples[k].written());
}

/// A message with samples begins with its head and the first `k` of them.
proof fn lemma_first_samples(
    head: Seq<String>,
    samples: Seq<SampleFields>,
    f: Seq<String>,
    k: int,
)
    requires
        0 <= k <= samples.len(),
        begins(f, head + samples_written(samples)),
    ensures
        begins(f, head + samples_written(samples.take(k))),
    decreases samples.len() - k,
{
    if k == samples.len() {
        assert(samples.take(k) =~= samples);
    } else {
        lemma_first_samples(head, samples, f, k + 1);
        lemma_one_more(samples, k);
        let before = head + samples_written(samples.take(k));
        assert(head + samples_written(samples.take(k + 1)) =~= before + samples[k].written());
        lemma_part(f, before, samples[k].written());
    }
}

/// The fields of a sample stand after those before it.
proof fn lemma_sample_stands(
    head: Seq<String>,
    samples: Seq<SampleFields>,
    f: Seq<String>,
    k: int,
)
    requires
        0 <= k < samples.len(),
        head.len() == 3,
        begins(f, head + samples_written(samples)),
    ensures
        ({
            let p = 3 + samples_written(samples.take(k)).len() as int;
            &&& stands(f, p, samples[k].written())
            &&& f[p] == samples[k].con_id
            &&& f[p + 1] == samples[k].symbol
            &&& f[p + 2] == samples[k].sec_type
            &&& f[p + 3] == samples[k].primary_exchange
            &&& f[p + 4] == samples[k].currency
            &&& f[p + 5] == samples[k].derivative_count
        }),
{
    let before = head + samples_written(samples.take(k));
    let part = samples[k].written();
    lemma_first_samples(head, samples, f, k + 1);
    lemma_one_more(samples, k);
    assert(head + samples_written(samples.take(k + 1)) =~= before + part);
    lemma_part(f, before, part);
    reveal(stands);
    assert(part[0] == samples[k].con_id);
    assert(part[1] == samples[k].symbol);
    assert(part[2] == samples[k].sec_type);
    assert(part[3] == samples[k].primary_exchange);
    assert(part[4] == samples[k].currency);
    assert(part[5] == samples[k].derivative_count);
}

/// An option chain is told as it was written, its expirations without regard to order and
/// repetition.
pub proof fn lemma_option_parameter(
    server_version: i32,
    id: String,
    req_id: String,
    exchange: String,
    underlying_con_id: String,
    trading_class: String,
    multiplier: String,
    expiration_count: String,
    expirations: Seq<String>,
    strike_count: String,
    strikes: Seq<String>,
    r: Interpretation,
)
    requires
        writes(id, 75),
        counts(expiration_count, expirations.len()),
        counts(strike_count, strikes.len()),
        is_any_interpretation(
            server_version,
            seq![
                id,
                req_id,
                exchange,
                underlying_con_id,
                trading_class,
                multiplier,
                expiration_count,
            ] + expirations + seq![strike_count] + strikes,
            r,
        ),
    ensures
        r.ending is Done,
        r.events@.len() == 1,
        r.events@[0] matches Event::SecurityDefinitionOptionParameter {
            req_id: request,
            exchange: place,
            underlying_con_id: underlying,
            trading_class: class,
            multiplier: factor,
            expirations: days,
            strikes: prices,
        } && {
            &&& request == number(req_id)
            &&& place == exchange
            &&& underlying == number(underlying_con_id)
            &&& class == trading_class
            &&& factor == multiplier
            &&& texts(days@).no_duplicates()
            &&& texts(days@).to_set() == texts(expirations).to_set()
            &&& prices@ == strikes.map_values(|s: String| Double::Parsed(s))
        },
{
    let head = seq![
        id,
        req_id,
        exchange,
        underlying_con_id,
        trading_class,
        multiplier,
        expiration_count,
    ];
    let f = head + expirations + seq![strike_count] + strikes;
    let s = 7 + expirations.len() as int;
    assert(f[6] == expiration_count);
    assert(f[s] == strike_count);
    assert(f.subrange(7, s) =~= expirations);
    assert(crate::lookup::strikes(f, s + 1, strikes.len()) =~= strikes.map_values(
        |s: String| Double::Parsed(s),
    ));
    lemma_kind(server_version, f, IncomingMessageIds::SecurityDefinitionOptionParameter, r);
}

/// An entry of a market scan, field by field.
pub struct ScanEntryFields {
    pub rank: String,
    pub con_id: String,
    pub symbol: String,
    pub sec_type: String,
    pub last_trade_date_or_contract_month: String,
    pub strike: String,
    pub right: String,
    pub exchange: String,
    pub currency: String,
    pub local_symbol: String,
    pub market_name: String,
    pub trading_class: String,
    pub distance: String,
    pub benchmark: String,
    pub projection: String,
    pub legs: String,
}

impl ScanEntryFields {
    /// The entry as a server sends it.
    pub open spec fn written(self) -> Seq<String> {
        seq![
            self.rank,
            self.con_id,
            self.symbol,
            self.sec_type,
            self.last_trade_date_or_contract_month,
            self.strike,
            self.right,
            self.exchange,
            self.currency,
            self.local_symbol,
            self.market_name,
            self.trading_class,
            self.distance,
            self.benchmark,
            self.projection,
            self.legs,
        ]
    }

    /// Whether `e` tells of the entry each value under its own name, and nothing that was not sent.
    pub open spec fn told(self, request: i32, e: Event) -> bool {
        e matches Event::ScannerData {
            req_id,
            rank,
            details,
            distance,
            benchmark,
            projection,
            legs,
        } && {
            &&& req_id == request
            &&& rank == number(self.rank)
            &&& details.contract.con_id == number(self.con_id)
            &&& details.contract.symbol@ == self.symbol@
            &&& details.contract.sec_type@ == self.sec_type@
            &&& details.contract.last_trade_date_or_contract_month@
                == self.last_trade_date_or_contract_month@
            &&& details.contract.strike == Double::Parsed(self.strike)
            &&& details.contract.right@ == self.right@
            &&& details.contract.multiplier@ == Seq::<char>::empty()
            &&& details.contract.exchange@ == self.exchange@
            &&& details.contract.primary_exchange@ == Seq::<char>::empty()
            &&& details.contract.currency@ == self.currency@
            &&& details.contract.local_symbol@ == self.local_symbol@
            &&& details.contract.trading_class@ == self.trading_class@
            &&& details.market_name@ == self.market_name@
            &&& details.min_tick == Double::Whole(0)
            &&& details.order_types@ == Seq::<char>::empty()
            &&& details.valid_exchanges@ == Seq::<char>::empty()
            &&& details.price_magnifier == 0
            &&& details.under_con_id == 0
            &&& details.long_name@ == Seq::<char>::empty()
            &&& details.contract_month@ == Seq::<char>::empty()
            &&& details.industry@ == Seq::<char>::empty()
            &&& details.category@ == Seq::<char>::empty()
            &&& details.subcategory@ == Seq::<char>::empty()
            &&& details.time_zone_id@ == Seq::<char>::empty()
            &&& details.trading_hours@ == Seq::<char>::empty()
            &&& details.liquid_hours@ == Seq::<char>::empty()
            &&& details.ev_rule@ == Seq::<char>::empty()
            &&& details.ev_multiplier == Double::Whole(0)
            &&& details.md_size_multiplier == 0
            &&& details.agg_group == 0
            &&& details.under_symbol@ == Seq::<char>::empty()
            &&& details.under_sec_type@ == Seq::<char>::empty()
            &&& details.market_rule_ids@ == Seq::<char>::empty()
            &&& details.real_expiration_date@ == Seq::<char>::empty()
            &&& details.last_trade_time@ == Seq::<char>::empty()
            &&& details.cusip@ == Seq::<char>::empty()
            &&& details.ratings@ == Seq::<char>::empty()
            &&& details.desc_append@ == Seq::<char>::empty()
            &&& details.bond_type@ == Seq::<char>::empty()
            &&& details.coupon_type@ == Seq::<char>::empty()
            &&& details.callable == false
            &&& details.putable == false
            &&& details.coupon == Double::Whole(0)
            &&& details.convertible == false
            &&& details.maturity@ == Seq::<char>::empty()
            &&& details.issue_date@ == Seq::<char>::empty()
            &&& details.next_option_date@ == Seq::<char>::empty()
            &&& details.next_option_type@ == Seq::<char>::empty()
            &&& details.next_option_partial == false
            &&& details.notes@ == Seq::<char>::empty()
            &&& details.sec_id_list@.len() == 0
            &&& distance == self.distance
            &&& benchmark == self.benchmark
            &&& projection == self.projection
            &&& legs == self.legs
        }
    }
}

/// The fields of the entries of a market scan, one entry after the other.
pub open spec fn entries_written(entries: Seq<ScanEntryFields>) -> Seq<String> {
    one_by_one(entries.map_values(|e: ScanEntryFields| e.written()))
}

/// A market scan is told as it was written: its entries, each with its own values, and then the
/// end.
pub proof fn lemma_scanner_data(
    server_version: i32,
    id: String,
    version: String,
    req_id: String,
    count: String,
    entries: Seq<ScanEntryFields>,
    r: Interpretation,
)
    requires
        writes(id, 20),
        counts(count, entries.len()),
        is_any_interpretation(
            server_version,
            seq![id, version, req_id, count] + entries_written(entries),
            r,
        ),
    ensures
        r.ending is Done,
        r.events@.len() == entries.len() + 1,
        forall|i: int|
            0 <= i < entries.len() ==> entries[i].told(number(req_id), #[trigger] r.events@[i]),
        r.events@.last() == (Event::ScannerDataEnd { req_id: number(req_id) }),
{
    let head = seq![id, version, req_id, count];
    let f = head + entries_written(entries);
    assert(f + seq![] =~= f);
    lemma_one_by_one(entries.map_values(|e: ScanEntryFields| e.written()), 16);
    lemma_kind(server_version, f, IncomingMessageIds::ScannerData, r);
    assert forall|i: int| 0 <= i < entries.len() implies entries[i].told(
        number(req_id),
        #[trigger] r.events@[i],
    ) by {
        lemma_scan_entry(head, entries, seq![], i, r.events@[i]);
    }
}

/// A market scan that breaks off in an entry is told up to there.
pub proof fn lemma_scanner_data_broken(
    server_version: i32,
    id: String,
    version: String,
    req_id: String,
    count: String,
    entries: Seq<ScanEntryFields>,
    rest: Seq<String>,
    r: Interpretation,
)
    requires
        writes(id, 20),
        number(count) > entries.len(),
        rest.len() < 16,
        is_any_interpretation(
            server_version,
            seq![id, version, req_id, count] + entries_written(entries) + rest,
            r,
        ),
    ensures
        r.ending is BrokenOff,
        r.events@.len() == entries.len(),
        forall|i: int|
            0 <= i < entries.len() ==> entries[i].told(number(req_id), #[trigger] r.events@[i]),
{
    let head = seq![id, version, req_id, count];
    let f = head + entries_written(entries) + rest;
    assert(f[0] == id && f[2] == req_id && f[3] == count);
    lemma_one_by_one(entries.map_values(|e: ScanEntryFields| e.written()), 16);
    IncomingMessageIds::ScannerData.lemma_code(20);
    assert(leading_scan_entries(f) == entries.len());
    assert forall|i: int| 0 <= i < entries.len() implies entries[i].told(
        number(req_id),
        #[trigger] r.events@[i],
    ) by {
        lemma_scan_entry(head, entries, rest, i, r.events@[i]);
    }
}

/// What is read of an entry of a market scan.
proof fn lemma_scan_entry(
    head: Seq<String>,
    entries: Seq<ScanEntryFields>,
    rest: Seq<String>,
    i: int,
    e: Event,
)
    requires
        head.len() == 4,
        0 <= i < entries.len(),
        is_scan_entry(head + entries_written(entries) + rest, 4 + 16 * i, e),
    ensures
        entries[i].told(number(head[2]), e),
{
    let parts = entries.map_values(|e: ScanEntryFields| e.written());
    let f = head + entries_written(entries) + rest;
    lemma_one_by_one(parts, 16);
    let part = parts[i];
    let p = 4 + 16 * i;
    assert(f[2] == head[2]);
    assert(part[0] == entries[i].rank && f[p + 0] == part[0]);
    assert(part[1] == entries[i].con_id && f[p + 1] == part[1]);
    assert(part[2] == entries[i].symbol && f[p + 2] == part[2]);
    assert(part[3] == entries[i].sec_type && f[p + 3] == part[3]);
    assert(part[4] == entries[i].last_trade_date_or_contract_month && f[p + 4] == part[4]);
    assert(part[5] == entries[i].strike && f[p + 5] == part[5]);
    assert(part[6] == entries[i].right && f[p + 6] == part[6]);
    assert(part[7] == entries[i].exchange && f[p + 7] == part[7]);
    assert(part[8] == entries[i].currency && f[p + 8] == part[8]);
    assert(part[9] == entries[i].local_symbol && f[p + 9] == part[9]);
    assert(part[10] == entries[i].market_name && f[p + 10] == part[10]);
    assert(part[11] == entries[i].trading_class && f[p + 11] == part[11]);
    assert(part[12] == entries[i].distance && f[p + 12] == part[12]);
    assert(part[13] == entries[i].benchmark && f[p + 13] == part[13]);
    assert(part[14] == entries[i].projection && f[p + 14] == part[14]);
    assert(part[15] == entries[i].legs && f[p + 15] == part[15]);
}

} // verus!

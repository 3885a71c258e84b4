//! The numbers by which messages name what they speak of.
use vstd::prelude::*;

verus! {

/// What a message tells, by the number in its first field.
#[derive(Clone, Copy, Debug, PartialEq, Eq, Structural)]
pub enum IncomingMessageIds {
    TickPrice,
    TickSize,
    OrderStatus,
    ErrMsg,
    OpenOrder,
    AcctValue,
    PortfolioValue,
    AcctUpdateTime,
    NextValidId,
    ContractData,
    ExecutionData,
    MarketDepth,
    MarketDepthL2,
    NewsBulletins,
    ManagedAccts,
    ReceiveFa,
    HistoricalData,
    BondContractData,
    ScannerParameters,
    ScannerData,
    TickOptionComputation,
    TickGeneric,
    TickString,
    TickEfp,
    CurrentTime,
    RealTimeBars,
    FundamentalData,
    ContractDataEnd,
    OpenOrderEnd,
    AcctDownloadEnd,
    ExecutionDataEnd,
    DeltaNeutralValidation,
    TickSnapshotEnd,
    MarketDataType,
    CommissionReport,
    PositionData,
    PositionEnd,
    AccountSummary,
    AccountSummaryEnd,
    VerifyMessageApi,
    VerifyCompleted,
    DisplayGroupList,
    DisplayGroupUpdated,
    VerifyAndAuthMessageApi,
    VerifyAndAuthCompleted,
    PositionMulti,
    PositionMultiEnd,
    AccountUpdateMulti,
    AccountUpdateMultiEnd,
    SecurityDefinitionOptionParameter,
    SecurityDefinitionOptionParameterEnd,
    SoftDollarTiers,
    FamilyCodes,
    SymbolSamples,
    MktDepthExchanges,
    TickReqParams,
    SmartComponents,
    NewsArticle,
    TickNews,
    NewsProviders,
    HistoricalNews,
    HistoricalNewsEnd,
    HeadTimestamp,
    HistogramData,
    HistoricalDataUpdate,
    RerouteMktDataReq,
    RerouteMktDepthReq,
    MarketRule,
    Pnl,
    PnlSingle,
    HistoricalTicks,
    HistoricalTicksBidAsk,
    HistoricalTicksLast,
    TickByTick,
    OrderBound,
    CompletedOrder,
    CompletedOrdersEnd,
}

impl IncomingMessageIds {
    /// The number of a message kind.
    pub open spec fn code(self) -> i32 {
        match self {
            IncomingMessageIds::TickPrice => 1,
            IncomingMessageIds::TickSize => 2,
            IncomingMessageIds::OrderStatus => 3,
            IncomingMessageIds::ErrMsg => 4,
            IncomingMessageIds::OpenOrder => 5,
            IncomingMessageIds::AcctValue => 6,
            IncomingMessageIds::PortfolioValue => 7,
            IncomingMessageIds::AcctUpdateTime => 8,
            IncomingMessageIds::NextValidId => 9,
            IncomingMessageIds::ContractData => 10,
            IncomingMessageIds::ExecutionData => 11,
            IncomingMessageIds::MarketDepth => 12,
            IncomingMessageIds::MarketDepthL2 => 13,
            IncomingMessageIds::NewsBulletins => 14,
            IncomingMessageIds::ManagedAccts => 15,
            IncomingMessageIds::ReceiveFa => 16,
            IncomingMessageIds::HistoricalData => 17,
            IncomingMessageIds::BondContractData => 18,
            IncomingMessageIds::ScannerParameters => 19,
            IncomingMessageIds::ScannerData => 20,
            IncomingMessageIds::TickOptionComputation => 21,
            IncomingMessageIds::TickGeneric => 45,
            IncomingMessageIds::TickString => 46,
            IncomingMessageIds::TickEfp => 47,
            IncomingMessageIds::CurrentTime => 49,
            IncomingMessageIds::RealTimeBars => 50,
            IncomingMessageIds::FundamentalData => 51,
            IncomingMessageIds::ContractDataEnd => 52,
            IncomingMessageIds::OpenOrderEnd => 53,
            IncomingMessageIds::AcctDownloadEnd => 54,
            IncomingMessageIds::ExecutionDataEnd => 55,
            IncomingMessageIds::DeltaNeutralValidation => 56,
            IncomingMessageIds::TickSnapshotEnd => 57,
            IncomingMessageIds::MarketDataType => 58,
            IncomingMessageIds::CommissionReport => 59,
            IncomingMessageIds::PositionData => 61,
            IncomingMessageIds::PositionEnd => 62,
            IncomingMessageIds::AccountSummary => 63,
            IncomingMessageIds::AccountSummaryEnd => 64,
            IncomingMessageIds::VerifyMessageApi => 65,
            IncomingMessageIds::VerifyCompleted => 66,
            IncomingMessageIds::DisplayGroupList => 67,
            IncomingMessageIds::DisplayGroupUpdated => 68,
            IncomingMessageIds::VerifyAndAuthMessageApi => 69,
            IncomingMessageIds::VerifyAndAuthCompleted => 70,
            IncomingMessageIds::PositionMulti => 71,
            IncomingMessageIds::PositionMultiEnd => 72,
            IncomingMessageIds::AccountUpdateMulti => 73,
            IncomingMessageIds::AccountUpdateMultiEnd => 74,
            IncomingMessageIds::SecurityDefinitionOptionParameter => 75,
            IncomingMessageIds::SecurityDefinitionOptionParameterEnd => 76,
            IncomingMessageIds::SoftDollarTiers => 77,
            IncomingMessageIds::FamilyCodes => 78,
            IncomingMessageIds::SymbolSamples => 79,
            IncomingMessageIds::MktDepthExchanges => 80,
            IncomingMessageIds::TickReqParams => 81,
            IncomingMessageIds::SmartComponents => 82,
            IncomingMessageIds::NewsArticle => 83,
            IncomingMessageIds::TickNews => 84,
            IncomingMessageIds::NewsProviders => 85,
            IncomingMessageIds::HistoricalNews => 86,
            IncomingMessageIds::HistoricalNewsEnd => 87,
            IncomingMessageIds::HeadTimestamp => 88,
            IncomingMessageIds::HistogramData => 89,
            IncomingMessageIds::HistoricalDataUpdate => 90,
            IncomingMessageIds::RerouteMktDataReq => 91,
            IncomingMessageIds::RerouteMktDepthReq => 92,
            IncomingMessageIds::MarketRule => 93,
            IncomingMessageIds::Pnl => 94,
            IncomingMessageIds::PnlSingle => 95,
            IncomingMessageIds::HistoricalTicks => 96,
            IncomingMessageIds::HistoricalTicksBidAsk => 97,
            IncomingMessageIds::HistoricalTicksLast => 98,
            IncomingMessageIds::TickByTick => 99,
            IncomingMessageIds::OrderBound => 100,
            IncomingMessageIds::CompletedOrder => 101,
            IncomingMessageIds::CompletedOrdersEnd => 102,
        }
    }

    /// The message kind with the number `code`, if there is one.
    pub open spec fn of(code: i32) -> Option<IncomingMessageIds> {
        match code {
            1 => Some(IncomingMessageIds::TickPrice),
            2 => Some(IncomingMessageIds::TickSize),
            3 => Some(IncomingMessageIds::OrderStatus),
            4 => Some(IncomingMessageIds::ErrMsg),
            5 => Some(IncomingMessageIds::OpenOrder),
            6 => Some(IncomingMessageIds::AcctValue),
            7 => Some(IncomingMessageIds::PortfolioValue),
            8 => Some(IncomingMessageIds::AcctUpdateTime),
            9 => Some(IncomingMessageIds::NextValidId),
            10 => Some(IncomingMessageIds::ContractData),
            11 => Some(IncomingMessageIds::ExecutionData),
            12 => Some(IncomingMessageIds::MarketDepth),
            13 => Some(IncomingMessageIds::MarketDepthL2),
            14 => Some(IncomingMessageIds::NewsBulletins),
            15 => Some(IncomingMessageIds::ManagedAccts),
            16 => Some(IncomingMessageIds::ReceiveFa),
            17 => Some(IncomingMessageIds::HistoricalData),
            18 => Some(IncomingMessageIds::BondContractData),
            19 => Some(IncomingMessageIds::ScannerParameters),
            20 => Some(IncomingMessageIds::ScannerData),
            21 => Some(IncomingMessageIds::TickOptionComputation),
            45 => Some(IncomingMessageIds::TickGeneric),
            46 => Some(IncomingMessageIds::TickString),
            47 => Some(IncomingMessageIds::TickEfp),
            49 => Some(IncomingMessageIds::CurrentTime),
            50 => Some(IncomingMessageIds::RealTimeBars),
            51 => Some(IncomingMessageIds::FundamentalData),
            52 => Some(IncomingMessageIds::ContractDataEnd),
            53 => Some(IncomingMessageIds::OpenOrderEnd),
            54 => Some(IncomingMessageIds::AcctDownloadEnd),
            55 => Some(IncomingMessageIds::ExecutionDataEnd),
            56 => Some(IncomingMessageIds::DeltaNeutralValidation),
            57 => Some(IncomingMessageIds::TickSnapshotEnd),
            58 => Some(IncomingMessageIds::MarketDataType),
            59 => Some(IncomingMessageIds::CommissionReport),
            61 => Some(IncomingMessageIds::PositionData),
            62 => Some(IncomingMessageIds::PositionEnd),
            63 => Some(IncomingMessageIds::AccountSummary),
            64 => Some(IncomingMessageIds::AccountSummaryEnd),
            65 => Some(IncomingMessageIds::VerifyMessageApi),
            66 => Some(IncomingMessageIds::VerifyCompleted),
            67 => Some(IncomingMessageIds::DisplayGroupList),
            68 => Some(IncomingMessageIds::DisplayGroupUpdated),
            69 => Some(IncomingMessageIds::VerifyAndAuthMessageApi),
            70 => Some(IncomingMessageIds::VerifyAndAuthCompleted),
            71 => Some(IncomingMessageIds::PositionMulti),
            72 => Some(IncomingMessageIds::PositionMultiEnd),
            73 => Some(IncomingMessageIds::AccountUpdateMulti),
            74 => Some(IncomingMessageIds::AccountUpdateMultiEnd),
            75 => Some(IncomingMessageIds::SecurityDefinitionOptionParameter),
            76 => Some(IncomingMessageIds::SecurityDefinitionOptionParameterEnd),
            77 => Some(IncomingMessageIds::SoftDollarTiers),
            78 => Some(IncomingMessageIds::FamilyCodes),
            79 => Some(IncomingMessageIds::SymbolSamples),
            80 => Some(IncomingMessageIds::MktDepthExchanges),
            81 => Some(IncomingMessageIds::TickReqParams),
            82 => Some(IncomingMessageIds::SmartComponents),
            83 => Some(IncomingMessageIds::NewsArticle),
            84 => Some(IncomingMessageIds::TickNews),
            85 => Some(IncomingMessageIds::NewsProviders),
            86 => Some(IncomingMessageIds::HistoricalNews),
            87 => Some(IncomingMessageIds::HistoricalNewsEnd),
            88 => Some(IncomingMessageIds::HeadTimestamp),
            89 => Some(IncomingMessageIds::HistogramData),
            90 => Some(IncomingMessageIds::HistoricalDataUpdate),
            91 => Some(IncomingMessageIds::RerouteMktDataReq),
            92 => Some(IncomingMessageIds::RerouteMktDepthReq),
            93 => Some(IncomingMessageIds::MarketRule),
            94 => Some(IncomingMessageIds::Pnl),
            95 => Some(IncomingMessageIds::PnlSingle),
            96 => Some(IncomingMessageIds::HistoricalTicks),
            97 => Some(IncomingMessageIds::HistoricalTicksBidAsk),
            98 => Some(IncomingMessageIds::HistoricalTicksLast),
            99 => Some(IncomingMessageIds::TickByTick),
            100 => Some(IncomingMessageIds::OrderBound),
            101 => Some(IncomingMessageIds::CompletedOrder),
            102 => Some(IncomingMessageIds::CompletedOrdersEnd),
            _ => None,
        }
    }

    /// The message kind with the number `code`, if there is one.
    pub fn from_i32(code: i32) -> (r: Option<IncomingMessageIds>)
        ensures
            r == IncomingMessageIds::of(code),
    {
        match code {
            1 => Some(IncomingMessageIds::TickPrice),
            2 => Some(IncomingMessageIds::TickSize),
            3 => Some(IncomingMessageIds::OrderStatus),
            4 => Some(IncomingMessageIds::ErrMsg),
            5 => Some(IncomingMessageIds::OpenOrder),
            6 => Some(IncomingMessageIds::AcctValue),
            7 => Some(IncomingMessageIds::PortfolioValue),
            8 => Some(IncomingMessageIds::AcctUpdateTime),
            9 => Some(IncomingMessageIds::NextValidId),
            10 => Some(IncomingMessageIds::ContractData),
            11 => Some(IncomingMessageIds::ExecutionData),
            12 => Some(IncomingMessageIds::MarketDepth),
            13 => Some(IncomingMessageIds::MarketDepthL2),
            14 => Some(IncomingMessageIds::NewsBulletins),
            15 => Some(IncomingMessageIds::ManagedAccts),
            16 => Some(IncomingMessageIds::ReceiveFa),
            17 => Some(IncomingMessageIds::HistoricalData),
            18 => Some(IncomingMessageIds::BondContractData),
            19 => Some(IncomingMessageIds::ScannerParameters),
            20 => Some(IncomingMessageIds::ScannerData),
            21 => Some(IncomingMessageIds::TickOptionComputation),
            45 => Some(IncomingMessageIds::TickGeneric),
            46 => Some(IncomingMessageIds::TickString),
            47 => Some(IncomingMessageIds::TickEfp),
            49 => Some(IncomingMessageIds::CurrentTime),
            50 => Some(IncomingMessageIds::RealTimeBars),
            51 => Some(IncomingMessageIds::FundamentalData),
            52 => Some(IncomingMessageIds::ContractDataEnd),
            53 => Some(IncomingMessageIds::OpenOrderEnd),
            54 => Some(IncomingMessageIds::AcctDownloadEnd),
            55 => Some(IncomingMessageIds::ExecutionDataEnd),
            56 => Some(IncomingMessageIds::DeltaNeutralValidation),
            57 => Some(IncomingMessageIds::TickSnapshotEnd),
            58 => Some(IncomingMessageIds::MarketDataType),
            59 => Some(IncomingMessageIds::CommissionReport),
            61 => Some(IncomingMessageIds::PositionData),
            62 => Some(IncomingMessageIds::PositionEnd),
            63 => Some(IncomingMessageIds::AccountSummary),
            64 => Some(IncomingMessageIds::AccountSummaryEnd),
            65 => Some(IncomingMessageIds::VerifyMessageApi),
            66 => Some(IncomingMessageIds::VerifyCompleted),
            67 => Some(IncomingMessageIds::DisplayGroupList),
            68 => Some(IncomingMessageIds::DisplayGroupUpdated),
            69 => Some(IncomingMessageIds::VerifyAndAuthMessageApi),
            70 => Some(IncomingMessageIds::VerifyAndAuthCompleted),
            71 => Some(IncomingMessageIds::PositionMulti),
            72 => Some(IncomingMessageIds::PositionMultiEnd),
            73 => Some(IncomingMessageIds::AccountUpdateMulti),
            74 => Some(IncomingMessageIds::AccountUpdateMultiEnd),
            75 => Some(IncomingMessageIds::SecurityDefinitionOptionParameter),
            76 => Some(IncomingMessageIds::SecurityDefinitionOptionParameterEnd),
            77 => Some(IncomingMessageIds::SoftDollarTiers),
            78 => Some(IncomingMessageIds::FamilyCodes),
            79 => Some(IncomingMessageIds::SymbolSamples),
            80 => Some(IncomingMessageIds::MktDepthExchanges),
            81 => Some(IncomingMessageIds::TickReqParams),
            82 => Some(IncomingMessageIds::SmartComponents),
            83 => Some(IncomingMessageIds::NewsArticle),
            84 => Some(IncomingMessageIds::TickNews),
            85 => Some(IncomingMessageIds::NewsProviders),
            86 => Some(IncomingMessageIds::HistoricalNews),
            87 => Some(IncomingMessageIds::HistoricalNewsEnd),
            88 => Some(IncomingMessageIds::HeadTimestamp),
            89 => Some(IncomingMessageIds::HistogramData),
            90 => Some(IncomingMessageIds::HistoricalDataUpdate),
            91 => Some(IncomingMessageIds::RerouteMktDataReq),
            92 => Some(IncomingMessageIds::RerouteMktDepthReq),
            93 => Some(IncomingMessageIds::MarketRule),
            94 => Some(IncomingMessageIds::Pnl),
            95 => Some(IncomingMessageIds::PnlSingle),
            96 => Some(IncomingMessageIds::HistoricalTicks),
            97 => Some(IncomingMessageIds::HistoricalTicksBidAsk),
            98 => Some(IncomingMessageIds::HistoricalTicksLast),
            99 => Some(IncomingMessageIds::TickByTick),
            100 => Some(IncomingMessageIds::OrderBound),
            101 => Some(IncomingMessageIds::CompletedOrder),
            102 => Some(IncomingMessageIds::CompletedOrdersEnd),
            _ => None,
        }
    }

    /// The numbers tell the message kinds apart: each belongs to one, and `of` finds it.
    pub proof fn lemma_code(self, code: i32)
        ensures
            IncomingMessageIds::of(self.code()) == Some(self),
            IncomingMessageIds::of(code) == Some(self) <==> code == self.code(),
    {
    }
}

/// What a tick measures.
#[derive(Clone, Copy, Debug, PartialEq, Eq, Structural)]
pub enum TickType {
    BidSize,
    Bid,
    Ask,
    AskSize,
    Last,
    LastSize,
    High,
    Low,
    Volume,
    Close,
    BidOptionComputation,
    AskOptionComputation,
    LastOptionComputation,
    ModelOption,
    Open,
    Low13Week,
    High13Week,
    Low26Week,
    High26Week,
    Low52Week,
    High52Week,
    AvgVolume,
    OpenInterest,
    OptionHistoricalVol,
    OptionImpliedVol,
    OptionBidExch,
    OptionAskExch,
    OptionCallOpenInterest,
    OptionPutOpenInterest,
    OptionCallVolume,
    OptionPutVolume,
    IndexFuturePremium,
    BidExch,
    AskExch,
    AuctionVolume,
    AuctionPrice,
    AuctionImbalance,
    MarkPrice,
    BidEfpComputation,
    AskEfpComputation,
    LastEfpComputation,
    OpenEfpComputation,
    HighEfpComputation,
    LowEfpComputation,
    CloseEfpComputation,
    LastTimestamp,
    Shortable,
    FundamentalRatios,
    RtVolume,
    Halted,
    BidYield,
    AskYield,
    LastYield,
    CustOptionComputation,
    TradeCount,
    TradeRate,
    VolumeRate,
    LastRthTrade,
    RtHistoricalVol,
    IbDividends,
    BondFactorMultiplier,
    RegulatoryImbalance,
    NewsTick,
    ShortTermVolume3Min,
    ShortTermVolume5Min,
    ShortTermVolume10Min,
    DelayedBid,
    DelayedAsk,
    DelayedLast,
    DelayedBidSize,
    DelayedAskSize,
    DelayedLastSize,
    DelayedHigh,
    DelayedLow,
    DelayedVolume,
    DelayedClose,
    DelayedOpen,
    RtTrdVolume,
    CreditmanMarkPrice,
    CreditmanSlowMarkPrice,
    DelayedBidOption,
    DelayedAskOption,
    DelayedLastOption,
    DelayedModelOption,
    LastExch,
    LastRegTime,
    FuturesOpenInterest,
    AvgOptVolume,
    DelayedLastTimestamp,
    ShortableShares,
    NotSet,
}

impl TickType {
    /// The number of a tick type.
    pub open spec fn code(self) -> i32 {
        match self {
            TickType::BidSize => 0,
            TickType::Bid => 1,
            TickType::Ask => 2,
            TickType::AskSize => 3,
            TickType::Last => 4,
            TickType::LastSize => 5,
            TickType::High => 6,
            TickType::Low => 7,
            TickType::Volume => 8,
            TickType::Close => 9,
            TickType::BidOptionComputation => 10,
            TickType::AskOptionComputation => 11,
            TickType::LastOptionComputation => 12,
            TickType::ModelOption => 13,
            TickType::Open => 14,
            TickType::Low13Week => 15,
            TickType::High13Week => 16,
            TickType::Low26Week => 17,
            TickType::High26Week => 18,
            TickType::Low52Week => 19,
            TickType::High52Week => 20,
            TickType::AvgVolume => 21,
            TickType::OpenInterest => 22,
            TickType::OptionHistoricalVol => 23,
            TickType::OptionImpliedVol => 24,
            TickType::OptionBidExch => 25,
            TickType::OptionAskExch => 26,
            TickType::OptionCallOpenInterest => 27,
            TickType::OptionPutOpenInterest => 28,
            TickType::OptionCallVolume => 29,
            TickType::OptionPutVolume => 30,
            TickType::IndexFuturePremium => 31,
            TickType::BidExch => 32,
            TickType::AskExch => 33,
            TickType::AuctionVolume => 34,
            TickType::AuctionPrice => 35,
            TickType::AuctionImbalance => 36,
            TickType::MarkPrice => 37,
            TickType::BidEfpComputation => 38,
            TickType::AskEfpComputation => 39,
            TickType::LastEfpComputation => 40,
            TickType::OpenEfpComputation => 41,
            TickType::HighEfpComputation => 42,
            TickType::LowEfpComputation => 43,
            TickType::CloseEfpComputation => 44,
            TickType::LastTimestamp => 45,
            TickType::Shortable => 46,
            TickType::FundamentalRatios => 47,
            TickType::RtVolume => 48,
            TickType::Halted => 49,
            TickType::BidYield => 50,
            TickType::AskYield => 51,
            TickType::LastYield => 52,
            TickType::CustOptionComputation => 53,
            TickType::TradeCount => 54,
            TickType::TradeRate => 55,
            TickType::VolumeRate => 56,
            TickType::LastRthTrade => 57,
            TickType::RtHistoricalVol => 58,
            TickType::IbDividends => 59,
            TickType::BondFactorMultiplier => 60,
            TickType::RegulatoryImbalance => 61,
            TickType::NewsTick => 62,
            TickType::ShortTermVolume3Min => 63,
            TickType::ShortTermVolume5Min => 64,
            TickType::ShortTermVolume10Min => 65,
            TickType::DelayedBid => 66,
            TickType::DelayedAsk => 67,
            TickType::DelayedLast => 68,
            TickType::DelayedBidSize => 69,
            TickType::DelayedAskSize => 70,
            TickType::DelayedLastSize => 71,
            TickType::DelayedHigh => 72,
            TickType::DelayedLow => 73,
            TickType::DelayedVolume => 74,
            TickType::DelayedClose => 75,
            TickType::DelayedOpen => 76,
            TickType::RtTrdVolume => 77,
            TickType::CreditmanMarkPrice => 78,
            TickType::CreditmanSlowMarkPrice => 79,
            TickType::DelayedBidOption => 80,
            TickType::DelayedAskOption => 81,
            TickType::DelayedLastOption => 82,
            TickType::DelayedModelOption => 83,
            TickType::LastExch => 84,
            TickType::LastRegTime => 85,
            TickType::FuturesOpenInterest => 86,
            TickType::AvgOptVolume => 87,
            TickType::DelayedLastTimestamp => 88,
            TickType::ShortableShares => 89,
            TickType::NotSet => 90,
        }
    }

    /// The tick type with the number `code`, if there is one.
    pub open spec fn of(code: i32) -> Option<TickType> {
        match code {
            0 => Some(TickType::BidSize),
            1 => Some(TickType::Bid),
            2 => Some(TickType::Ask),
            3 => Some(TickType::AskSize),
            4 => Some(TickType::Last),
            5 => Some(TickType::LastSize),
            6 => Some(TickType::High),
            7 => Some(TickType::Low),
            8 => Some(TickType::Volume),
            9 => Some(TickType::Close),
            10 => Some(TickType::BidOptionComputation),
            11 => Some(TickType::AskOptionComputation),
            12 => Some(TickType::LastOptionComputation),
            13 => Some(TickType::ModelOption),
            14 => Some(TickType::Open),
            15 => Some(TickType::Low13Week),
            16 => Some(TickType::High13Week),
            17 => Some(TickType::Low26Week),
            18 => Some(TickType::High26Week),
            19 => Some(TickType::Low52Week),
            20 => Some(TickType::High52Week),
            21 => Some(TickType::AvgVolume),
            22 => Some(TickType::OpenInterest),
            23 => Some(TickType::OptionHistoricalVol),
            24 => Some(TickType::OptionImpliedVol),
            25 => Some(TickType::OptionBidExch),
            26 => Some(TickType::OptionAskExch),
            27 => Some(TickType::OptionCallOpenInterest),
            28 => Some(TickType::OptionPutOpenInterest),
            29 => Some(TickType::OptionCallVolume),
            30 => Some(TickType::OptionPutVolume),
            31 => Some(TickType::IndexFuturePremium),
            32 => Some(TickType::BidExch),
            33 => Some(TickType::AskExch),
            34 => Some(TickType::AuctionVolume),
            35 => Some(TickType::AuctionPrice),
            36 => Some(TickType::AuctionImbalance),
            37 => Some(TickType::MarkPrice),
            38 => Some(TickType::BidEfpComputation),
            39 => Some(TickType::AskEfpComputation),
            40 => Some(TickType::LastEfpComputation),
            41 => Some(TickType::OpenEfpComputation),
            42 => Some(TickType::HighEfpComputation),
            43 => Some(TickType::LowEfpComputation),
            44 => Some(TickType::CloseEfpComputation),
            45 => Some(TickType::LastTimestamp),
            46 => Some(TickType::Shortable),
            47 => Some(TickType::FundamentalRatios),
            48 => Some(TickType::RtVolume),
            49 => Some(TickType::Halted),
            50 => Some(TickType::BidYield),
            51 => Some(TickType::AskYield),
            52 => Some(TickType::LastYield),
            53 => Some(TickType::CustOptionComputation),
            54 => Some(TickType::TradeCount),
            55 => Some(TickType::TradeRate),
            56 => Some(TickType::VolumeRate),
            57 => Some(TickType::LastRthTrade),
            58 => Some(TickType::RtHistoricalVol),
            59 => Some(TickType::IbDividends),
            60 => Some(TickType::BondFactorMultiplier),
            61 => Some(TickType::RegulatoryImbalance),
            62 => Some(TickType::NewsTick),
            63 => Some(TickType::ShortTermVolume3Min),
            64 => Some(TickType::ShortTermVolume5Min),
            65 => Some(TickType::ShortTermVolume10Min),
            66 => Some(TickType::DelayedBid),
            67 => Some(TickType::DelayedAsk),
            68 => Some(TickType::DelayedLast),
            69 => Some(TickType::DelayedBidSize),
            70 => Some(TickType::DelayedAskSize),
            71 => Some(TickType::DelayedLastSize),
            72 => Some(TickType::DelayedHigh),
            73 => Some(TickType::DelayedLow),
            74 => Some(TickType::DelayedVolume),
            75 => Some(TickType::DelayedClose),
            76 => Some(TickType::DelayedOpen),
            77 => Some(TickType::RtTrdVolume),
            78 => Some(TickType::CreditmanMarkPrice),
            79 => Some(TickType::CreditmanSlowMarkPrice),
            80 => Some(TickType::DelayedBidOption),
            81 => Some(TickType::DelayedAskOption),
            82 => Some(TickType::DelayedLastOption),
            83 => Some(TickType::DelayedModelOption),
            84 => Some(TickType::LastExch),
            85 => Some(TickType::LastRegTime),
            86 => Some(TickType::FuturesOpenInterest),
            87 => Some(TickType::AvgOptVolume),
            88 => Some(TickType::DelayedLastTimestamp),
            89 => Some(TickType::ShortableShares),
            90 => Some(TickType::NotSet),
            _ => None,
        }
    }

    /// The tick type with the number `code`, if there is one.
    pub fn from_i32(code: i32) -> (r: Option<TickType>)
        ensures
            r == TickType::of(code),
    {
        match code {
            0 => Some(TickType::BidSize),
            1 => Some(TickType::Bid),
            2 => Some(TickType::Ask),
            3 => Some(TickType::AskSize),
            4 => Some(TickType::Last),
            5 => Some(TickType::LastSize),
            6 => Some(TickType::High),
            7 => Some(TickType::Low),
            8 => Some(TickType::Volume),
            9 => Some(TickType::Close),
            10 => Some(TickType::BidOptionComputation),
            11 => Some(TickType::AskOptionComputation),
            12 => Some(TickType::LastOptionComputation),
            13 => Some(TickType::ModelOption),
            14 => Some(TickType::Open),
            15 => Some(TickType::Low13Week),
            16 => Some(TickType::High13Week),
            17 => Some(TickType::Low26Week),
            18 => Some(TickType::High26Week),
            19 => Some(TickType::Low52Week),
            20 => Some(TickType::High52Week),
            21 => Some(TickType::AvgVolume),
            22 => Some(TickType::OpenInterest),
            23 => Some(TickType::OptionHistoricalVol),
            24 => Some(TickType::OptionImpliedVol),
            25 => Some(TickType::OptionBidExch),
            26 => Some(TickType::OptionAskExch),
            27 => Some(TickType::OptionCallOpenInterest),
            28 => Some(TickType::OptionPutOpenInterest),
            29 => Some(TickType::OptionCallVolume),
            30 => Some(TickType::OptionPutVolume),
            31 => Some(TickType::IndexFuturePremium),
            32 => Some(TickType::BidExch),
            33 => Some(TickType::AskExch),
            34 => Some(TickType::AuctionVolume),
            35 => Some(TickType::AuctionPrice),
            36 => Some(TickType::AuctionImbalance),
            37 => Some(TickType::MarkPrice),
            38 => Some(TickType::BidEfpComputation),
            39 => Some(TickType::AskEfpComputation),
            40 => Some(TickType::LastEfpComputation),
            41 => Some(TickType::OpenEfpComputation),
            42 => Some(TickType::HighEfpComputation),
            43 => Some(TickType::LowEfpComputation),
            44 => Some(TickType::CloseEfpComputation),
            45 => Some(TickType::LastTimestamp),
            46 => Some(TickType::Shortable),
            47 => Some(TickType::FundamentalRatios),
            48 => Some(TickType::RtVolume),
            49 => Some(TickType::Halted),
            50 => Some(TickType::BidYield),
            51 => Some(TickType::AskYield),
            52 => Some(TickType::LastYield),
            53 => Some(TickType::CustOptionComputation),
            54 => Some(TickType::TradeCount),
            55 => Some(TickType::TradeRate),
            56 => Some(TickType::VolumeRate),
            57 => Some(TickType::LastRthTrade),
            58 => Some(TickType::RtHistoricalVol),
            59 => Some(TickType::IbDividends),
            60 => Some(TickType::BondFactorMultiplier),
            61 => Some(TickType::RegulatoryImbalance),
            62 => Some(TickType::NewsTick),
            63 => Some(TickType::ShortTermVolume3Min),
            64 => Some(TickType::ShortTermVolume5Min),
            65 => Some(TickType::ShortTermVolume10Min),
            66 => Some(TickType::DelayedBid),
            67 => Some(TickType::DelayedAsk),
            68 => Some(TickType::DelayedLast),
            69 => Some(TickType::DelayedBidSize),
            70 => Some(TickType::DelayedAskSize),
            71 => Some(TickType::DelayedLastSize),
            72 => Some(TickType::DelayedHigh),
            73 => Some(TickType::DelayedLow),
            74 => Some(TickType::DelayedVolume),
            75 => Some(TickType::DelayedClose),
            76 => Some(TickType::DelayedOpen),
            77 => Some(TickType::RtTrdVolume),
            78 => Some(TickType::CreditmanMarkPrice),
            79 => Some(TickType::CreditmanSlowMarkPrice),
            80 => Some(TickType::DelayedBidOption),
            81 => Some(TickType::DelayedAskOption),
            82 => Some(TickType::DelayedLastOption),
            83 => Some(TickType::DelayedModelOption),
            84 => Some(TickType::LastExch),
            85 => Some(TickType::LastRegTime),
            86 => Some(TickType::FuturesOpenInterest),
            87 => Some(TickType::AvgOptVolume),
            88 => Some(TickType::DelayedLastTimestamp),
            89 => Some(TickType::ShortableShares),
            90 => Some(TickType::NotSet),
            _ => None,
        }
    }

    /// The numbers tell the tick types apart: each belongs to one, and `of` finds it.
    pub proof fn lemma_code(self, code: i32)
        ensures
            TickType::of(self.code()) == Some(self),
            TickType::of(code) == Some(self) <==> code == self.code(),
    {
    }
}

/// What a financial advisor configuration holds.
#[derive(Clone, Copy, Debug, PartialEq, Eq, Structural)]
pub enum FaDataType {
    Groups,
    Profiles,
    Aliases,
}

impl FaDataType {
    /// The number of an advisor data type.
    pub open spec fn code(self) -> i32 {
        match self {
            FaDataType::Groups => 1,
            FaDataType::Profiles => 2,
            FaDataType::Aliases => 3,
        }
    }

    /// The advisor data type with the number `code`, if there is one.
    pub open spec fn of(code: i32) -> Option<FaDataType> {
        match code {
            1 => Some(FaDataType::Groups),
            2 => Some(FaDataType::Profiles),
            3 => Some(FaDataType::Aliases),
            _ => None,
        }
    }

    /// The advisor data type with the number `code`, if there is one.
    pub fn from_i32(code: i32) -> (r: Option<FaDataType>)
        ensures
            r == FaDataType::of(code),
    {
        match code {
            1 => Some(FaDataType::Groups),
            2 => Some(FaDataType::Profiles),
            3 => Some(FaDataType::Aliases),
            _ => None,
        }
    }

    /// The numbers tell the advisor data types apart: each belongs to one, and `of` finds it.
    pub proof fn lemma_code(self, code: i32)
        ensures
            FaDataType::of(self.code()) == Some(self),
            FaDataType::of(code) == Some(self) <==> code == self.code(),
    {
    }
}

/// What a tick-by-tick subscription follows.
#[derive(Clone, Copy, Debug, PartialEq, Eq, Structural)]
pub enum TickByTickType {
    Nothing,
    Last,
    AllLast,
    BidAsk,
    MidPoint,
}

impl TickByTickType {
    /// The number of a subscription type.
    pub open spec fn code(self) -> i32 {
        match self {
            TickByTickType::Nothing => 0,
            TickByTickType::Last => 1,
            TickByTickType::AllLast => 2,
            TickByTickType::BidAsk => 3,
            TickByTickType::MidPoint => 4,
        }
    }

    /// The subscription type with the number `code`, if there is one.
    pub open spec fn of(code: i32) -> Option<TickByTickType> {
        match code {
            0 => Some(TickByTickType::Nothing),
            1 => Some(TickByTickType::Last),
            2 => Some(TickByTickType::AllLast),
            3 => Some(TickByTickType::BidAsk),
            4 => Some(TickByTickType::MidPoint),
            _ => None,
        }
    }

    /// The subscription type with the number `code`, if there is one.
    pub fn from_i32(code: i32) -> (r: Option<TickByTickType>)
        ensures
            r == TickByTickType::of(code),
    {
        match code {
            0 => Some(TickByTickType::Nothing),
            1 => Some(TickByTickType::Last),
            2 => Some(TickByTickType::AllLast),
            3 => Some(TickByTickType::BidAsk),
            4 => Some(TickByTickType::MidPoint),
            _ => None,
        }
    }

    /// The numbers tell the subscription types apart: each belongs to one, and `of` finds it.
    pub proof fn lemma_code(self, code: i32)
        ensures
            TickByTickType::of(self.code()) == Some(self),
            TickByTickType::of(code) == Some(self) <==> code == self.code(),
    {
    }
}

/// How far the connection to the server has come.
#[derive(Clone, Copy, Debug, PartialEq, Eq, Structural)]
#[allow(non_camel_case_types)]
pub enum ConnStatus {
    DISCONNECTED,
    CONNECTING,
    CONNECTED,
    REDIRECT,
}

} // verus!

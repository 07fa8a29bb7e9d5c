//! Session-chart policies: extended-hours cycling, scene-layer flags,
//! axis kinds and bar-period labels.

use vstd::prelude::*;

verus! {

/// Extended-hours rendering policy of a session chart.
#[derive(Copy, Clone, Debug, PartialEq, Eq, Structural)]
pub enum EhPolicy {
    /// Pre + RTH + Post candles all visible, full chrome.
    ShowAll,
    /// Only RTH candles in the stream; chrome identical to `ShowAll`.
    HideExtended,
    /// Candles unfiltered, but session bands and separators hidden.
    ShowBarsOnly,
}

impl Default for EhPolicy {
    fn default() -> (r: Self)
        ensures
            r == EhPolicy::ShowAll,
    {
        EhPolicy::ShowAll
    }
}

/// The successor of a policy in the toggle-chip cycle.
pub open spec fn eh_next(p: EhPolicy) -> EhPolicy {
    match p {
        EhPolicy::ShowAll => EhPolicy::HideExtended,
        EhPolicy::HideExtended => EhPolicy::ShowBarsOnly,
        EhPolicy::ShowBarsOnly => EhPolicy::ShowAll,
    }
}

impl EhPolicy {
    /// Cycle `ShowAll → HideExtended → ShowBarsOnly → ShowAll`.
    pub fn next(self) -> (r: Self)
        ensures
            r == eh_next(self),
    {
        match self {
            EhPolicy::ShowAll => EhPolicy::HideExtended,
            EhPolicy::HideExtended => EhPolicy::ShowBarsOnly,
            EhPolicy::ShowBarsOnly => EhPolicy::ShowAll,
        }
    }

    /// Short label for the on-screen toggle chip.
    pub fn short_label(self) -> (r: &'static str)
        ensures
            self == EhPolicy::ShowAll ==> r@ == "EH"@,
            self == EhPolicy::HideExtended ==> r@ == "RTH"@,
            self == EhPolicy::ShowBarsOnly ==> r@ == "EH·bars"@,
    {
        match self {
            EhPolicy::ShowAll => "EH",
            EhPolicy::HideExtended => "RTH",
            EhPolicy::ShowBarsOnly => "EH·bars",
        }
    }
}

/// Three applications of `next` return to the starting policy, and no
/// fewer do: the cycle has period exactly three.
pub proof fn lemma_eh_cycle_period_three(p: EhPolicy)
    ensures
        eh_next(eh_next(eh_next(p))) == p,
        eh_next(p) != p,
        eh_next(eh_next(p)) != p,
{
}


/// Flags toggling the individual layers of a session-chart scene.
#[derive(Copy, Clone, Debug, PartialEq, Eq, Structural)]
pub struct SceneLayers {
    pub session_bands: bool,
    pub grid: bool,
    pub session_separators: bool,
    pub volume: bool,
    pub candles: bool,
    pub holidays: bool,
    pub crosshair: bool,
}

/// The layer set an extended-hours policy implies; holidays follow the
/// exchange (on for XNYS, off for crypto).
pub open spec fn layers_for(policy: EhPolicy, is_xnys: bool) -> SceneLayers {
    let chrome = policy != EhPolicy::ShowBarsOnly;
    SceneLayers {
        session_bands: chrome,
        grid: true,
        session_separators: chrome,
        volume: true,
        candles: true,
        holidays: is_xnys,
        crosshair: true,
    }
}

impl SceneLayers {
    /// All MVP layers on; holidays off until a caller opts in.
    pub fn all_on() -> (r: Self)
        ensures
            r == (SceneLayers {
                session_bands: true,
                grid: true,
                session_separators: true,
                volume: true,
                candles: true,
                holidays: false,
                crosshair: true,
            }),
    {
        SceneLayers {
            session_bands: true,
            grid: true,
            session_separators: true,
            volume: true,
            candles: true,
            holidays: false,
            crosshair: true,
        }
    }

    /// Candles and grid only: the minimal emit surface.
    pub fn candles_and_grid() -> (r: Self)
        ensures
            r == (SceneLayers {
                session_bands: false,
                grid: true,
                session_separators: false,
                volume: false,
                candles: true,
                holidays: false,
                crosshair: false,
            }),
    {
        SceneLayers {
            session_bands: false,
            grid: true,
            session_separators: false,
            volume: false,
            candles: true,
            holidays: false,
            crosshair: false,
        }
    }

    /// Derive the effective layer set from an extended-hours policy.
    /// `ShowAll` and `HideExtended` keep bands and separators (the
    /// filtering happens in the candle stream); `ShowBarsOnly` drops
    /// them. Holidays are on exactly for XNYS.
    pub fn from_eh_policy(policy: EhPolicy, is_xnys: bool) -> (r: Self)
        ensures
            r == layers_for(policy, is_xnys),
    {
        match policy {
            EhPolicy::ShowAll | EhPolicy::HideExtended => SceneLayers {
                session_bands: true,
                grid: true,
                session_separators: true,
                volume: true,
                candles: true,
                holidays: is_xnys,
                crosshair: true,
            },
            EhPolicy::ShowBarsOnly => SceneLayers {
                session_bands: false,
                grid: true,
                session_separators: false,
                volume: true,
                candles: true,
                holidays: is_xnys,
                crosshair: true,
            },
        }
    }
}

impl Default for SceneLayers {
    fn default() -> (r: Self)
        ensures
            r == (SceneLayers {
                session_bands: true,
                grid: true,
                session_separators: true,
                volume: true,
                candles: true,
                holidays: false,
                crosshair: true,
            }),
    {
        Self::all_on()
    }
}

/// Every policy keeps candles, grid, volume and crosshair on; hiding
/// extended hours changes the stream, not the chrome; and the holiday
/// layer depends on the exchange alone.
pub proof fn lemma_layers_policy_invariants(policy: EhPolicy, is_xnys: bool)
    ensures
        layers_for(policy, is_xnys).candles,
        layers_for(policy, is_xnys).grid,
        layers_for(policy, is_xnys).volume,
        layers_for(policy, is_xnys).crosshair,
        layers_for(policy, is_xnys).holidays == is_xnys,
        layers_for(EhPolicy::HideExtended, is_xnys) == layers_for(EhPolicy::ShowAll, is_xnys),
        layers_for(policy, is_xnys).session_bands == layers_for(policy, is_xnys).session_separators,
{
}

/// Which concrete time-axis implementation a chart uses.
#[derive(Copy, Clone, Debug, PartialEq, Eq, Structural)]
pub enum AxisKind {
    Continuous,
    Compressed,
    SessionIndex,
}

/// Time-axis policy an exchange calendar declares.
#[derive(Copy, Clone, Debug, PartialEq, Eq, Structural)]
pub enum TimeAxisPolicy {
    Continuous,
    CompressedSessionBoundaries,
}

impl AxisKind {
    /// The axis kind implied by a calendar's time-axis policy;
    /// `SessionIndex` is never chosen here.
    pub fn for_calendar(policy: TimeAxisPolicy) -> (r: Self)
        ensures
            policy == TimeAxisPolicy::Continuous ==> r == AxisKind::Continuous,
            policy == TimeAxisPolicy::CompressedSessionBoundaries ==> r == AxisKind::Compressed,
    {
        match policy {
            TimeAxisPolicy::Continuous => AxisKind::Continuous,
            TimeAxisPolicy::CompressedSessionBoundaries => AxisKind::Compressed,
        }
    }
}

/// Display name of an axis kind.
pub open spec fn axis_kind_name(kind: AxisKind) -> Seq<char> {
    match kind {
        AxisKind::Continuous => "Continuous"@,
        AxisKind::Compressed => "Compressed"@,
        AxisKind::SessionIndex => "SessionIndex"@,
    }
}

/// Label of an axis kind, as shown in the chart panels and the state dump.
pub fn axis_kind_label(kind: AxisKind) -> (r: &'static str)
    ensures
        r@ == axis_kind_name(kind),
{
    match kind {
        AxisKind::Continuous => "Continuous",
        AxisKind::Compressed => "Compressed",
        AxisKind::SessionIndex => "SessionIndex",
    }
}

/// Clock-based bar intervals.
#[derive(Copy, Clone, Debug, PartialEq, Eq, Structural)]
pub enum ClockInterval {
    Seconds(u32),
    Minutes(u32),
    Hours(u32),
}

/// Session-scoped bar spans.
#[derive(Copy, Clone, Debug, PartialEq, Eq, Structural)]
pub enum SessionSpan {
    Regular,
    Extended,
    Eth,
}

/// Calendar-scoped bar spans.
#[derive(Copy, Clone, Debug, PartialEq, Eq, Structural)]
pub enum CalendarSpan {
    Week,
    Month,
    Quarter,
    Year,
}

/// The period a bar covers.
#[derive(Copy, Clone, Debug, PartialEq, Eq, Structural)]
pub enum BarPeriod {
    Clock(ClockInterval),
    Session(SessionSpan),
    Calendar(CalendarSpan),
}

impl BarPeriod {
    pub fn m1() -> (r: Self)
        ensures
            r == BarPeriod::Clock(ClockInterval::Minutes(1)),
    {
        BarPeriod::Clock(ClockInterval::Minutes(1))
    }

    pub fn m5() -> (r: Self)
        ensures
            r == BarPeriod::Clock(ClockInterval::Minutes(5)),
    {
        BarPeriod::Clock(ClockInterval::Minutes(5))
    }

    pub fn h1() -> (r: Self)
        ensures
            r == BarPeriod::Clock(ClockInterval::Hours(1)),
    {
        BarPeriod::Clock(ClockInterval::Hours(1))
    }

    pub fn d1_rth() -> (r: Self)
        ensures
            r == BarPeriod::Session(SessionSpan::Regular),
    {
        BarPeriod::Session(SessionSpan::Regular)
    }

    pub fn w1() -> (r: Self)
        ensures
            r == BarPeriod::Calendar(CalendarSpan::Week),
    {
        BarPeriod::Calendar(CalendarSpan::Week)
    }

    pub fn mn1() -> (r: Self)
        ensures
            r == BarPeriod::Calendar(CalendarSpan::Month),
    {
        BarPeriod::Calendar(CalendarSpan::Month)
    }
}

/// Compact label of a bar period for window and panel titles.
pub open spec fn period_name(p: BarPeriod) -> Seq<char> {
    match p {
        BarPeriod::Clock(ClockInterval::Seconds(n)) => if n == 5 { "S5"@ } else { "Sn"@ },
        BarPeriod::Clock(ClockInterval::Minutes(n)) => if n == 1 {
            "M1"@
        } else if n == 5 {
            "M5"@
        } else if n == 15 {
            "M15"@
        } else {
            "Mn"@
        },
        BarPeriod::Clock(ClockInterval::Hours(n)) => if n == 1 { "H1"@ } else { "Hn"@ },
        BarPeriod::Session(SessionSpan::Regular) => "D1·RTH"@,
        BarPeriod::Session(_) => "D1·ETH"@,
        BarPeriod::Calendar(CalendarSpan::Week) => "W1"@,
        BarPeriod::Calendar(CalendarSpan::Month) => "MN1"@,
        BarPeriod::Calendar(CalendarSpan::Quarter) => "Q1"@,
        BarPeriod::Calendar(CalendarSpan::Year) => "Y1"@,
    }
}

/// Label shown for a bar period.
pub fn period_label(period: BarPeriod) -> (r: &'static str)
    ensures
        r@ == period_name(period),
{
    match period {
        BarPeriod::Clock(ClockInterval::Seconds(n)) => if n == 5 { "S5" } else { "Sn" },
        BarPeriod::Clock(ClockInterval::Minutes(n)) => {
            if n == 1 {
                "M1"
            } else if n == 5 {
                "M5"
            } else if n == 15 {
                "M15"
            } else {
                "Mn"
            }
        },
        BarPeriod::Clock(ClockInterval::Hours(n)) => if n == 1 { "H1" } else { "Hn" },
        BarPeriod::Session(SessionSpan::Regular) => "D1·RTH",
        BarPeriod::Session(SessionSpan::Extended) => "D1·ETH",
        BarPeriod::Session(SessionSpan::Eth) => "D1·ETH",
        BarPeriod::Calendar(CalendarSpan::Week) => "W1",
        BarPeriod::Calendar(CalendarSpan::Month) => "MN1",
        BarPeriod::Calendar(CalendarSpan::Quarter) => "Q1",
        BarPeriod::Calendar(CalendarSpan::Year) => "Y1",
    }
}

pub const NANOS_PER_MINUTE: i64 = 60_000_000_000;

pub const NANOS_PER_DAY: i64 = 86_400_000_000_000;

/// Nominal length of one bar in nanoseconds, used as the zoom floor:
/// one minute for M1, five for M5, a day for the RTH session, a week
/// for W1, and one minute for every other period.
pub open spec fn bar_period_nanos(p: BarPeriod) -> int {
    if p == BarPeriod::Clock(ClockInterval::Minutes(5)) {
        5 * NANOS_PER_MINUTE
    } else if p == BarPeriod::Session(SessionSpan::Regular) {
        NANOS_PER_DAY as int
    } else if p == BarPeriod::Calendar(CalendarSpan::Week) {
        7 * NANOS_PER_DAY
    } else {
        NANOS_PER_MINUTE as int
    }
}

/// Nominal bar length of a period in nanoseconds.
pub fn bar_period_ns(period: BarPeriod) -> (r: i64)
    ensures
        r == bar_period_nanos(period),
{
    if period == BarPeriod::m1() {
        NANOS_PER_MINUTE
    } else if period == BarPeriod::m5() {
        5 * NANOS_PER_MINUTE
    } else if period == BarPeriod::d1_rth() {
        NANOS_PER_DAY
    } else if period == BarPeriod::w1() {
        7 * NANOS_PER_DAY
    } else {
        NANOS_PER_MINUTE
    }
}

/// Which interactive tool is active on a session-chart panel.
#[derive(Copy, Clone, Debug, PartialEq, Eq, Structural)]
pub enum ToolKind {
    /// Click-to-place horizontal price level.
    Level,
    /// Three-click bracket placement.
    Bracket,
}

/// The tool a widget's short label names, if any.
pub open spec fn tool_for_label(label: Option<Seq<char>>) -> Option<ToolKind> {
    match label {
        Some(l) => if l == "level"@ {
            Some(ToolKind::Level)
        } else if l == "bracket"@ {
            Some(ToolKind::Bracket)
        } else {
            None
        },
        None => None,
    }
}

/// Map the widget's short tool label onto the typed tool; unknown labels
/// project to `None`.
pub fn tool_kind_for_label(label: Option<&str>) -> (r: Option<ToolKind>)
    ensures
        r == tool_for_label(match label {
            Some(l) => Some(l@),
            None => None,
        }),
{
    match label {
        Some(l) => {
            if crate::text::str_eq(l, "level") {
                Some(ToolKind::Level)
            } else if crate::text::str_eq(l, "bracket") {
                Some(ToolKind::Bracket)
            } else {
                None
            }
        },
        None => None,
    }
}

/// Why a session-chart driver could not be spawned. The driver always
/// succeeds today; the error keeps room for refinements.
#[derive(Clone, Debug)]
pub enum DriverError {
    Construction(String),
}

} // verus!

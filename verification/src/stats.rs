//! How much data each profile has moved, in this session and in all.

use crate::error::{AppError, AppResult};
use crate::persist::{FileRead, FileWrite};
use crate::settings::{load_error, save_result};
use crate::table::Table;
use crate::text::{decimal_text, text2};
use vstd::prelude::*;

verus! {

// ── readable sizes ──────────────────────────────────────────────────────────

/// `a / b`, rounded to the nearest whole number; halfway cases go to the even one.
pub open spec fn round_half_even(a: nat, b: nat) -> nat {
    let q = a / b;
    let r = a % b;
    if 2 * r < b || (2 * r == b && q % 2 == 0) {
        q
    } else {
        q + 1
    }
}

/// The distance between neighbouring double-precision numbers at `n`, where that is at least 1.
pub open spec fn double_gap(n: nat) -> nat
    decreases n,
{
    if n < 0x20_0000_0000_0000 {
        1
    } else {
        2 * double_gap(n / 2)
    }
}

/// The double-precision number nearest to `n`.
pub open spec fn double_value(n: nat) -> nat {
    round_half_even(n, double_gap(n)) * double_gap(n)
}

/// `n` in units of `unit`, in hundredths, rounded.
pub open spec fn hundredths(n: nat, unit: nat) -> nat {
    round_half_even(100 * double_value(n), unit)
}

/// A number of hundredths with two decimals.
pub open spec fn two_decimals(h: nat) -> Seq<char> {
    crate::text::decimal(h / 100) + "."@ + crate::text::decimal(h / 10 % 10)
        + crate::text::decimal(h % 10)
}

/// A number of bytes in a readable form: in bytes below 1024, else with two decimals in the
/// largest of the units KiB, MiB, GiB and TiB that it reaches. From 2^53 on the number is first
/// rounded to double precision.
pub open spec fn readable(bytes: nat) -> Seq<char> {
    if bytes < 0x400 {
        crate::text::decimal(bytes) + " B"@
    } else if bytes < 0x10_0000 {
        two_decimals(hundredths(bytes, 0x400)) + " KiB"@
    } else if bytes < 0x4000_0000 {
        two_decimals(hundredths(bytes, 0x10_0000)) + " MiB"@
    } else if bytes < 0x100_0000_0000 {
        two_decimals(hundredths(bytes, 0x4000_0000)) + " GiB"@
    } else {
        two_decimals(hundredths(bytes, 0x100_0000_0000)) + " TiB"@
    }
}

/// `a / b`, rounded to the nearest whole number; halfway cases go to the even one.
fn divide_half_even(a: u128, b: u128) -> (r: u128)
    requires
        0 < b <= 0x100_0000_0000,
        a < 0x1_0000_0000_0000_0000_0000_0000,
    ensures
        r == round_half_even(a as nat, b as nat),
{
    let q: u128 = a / b;
    let r: u128 = a % b;
    assert(q <= a) by (nonlinear_arith)
        requires
            q == a / b,
            b > 0,
    ;
    if 2 * r < b || (2 * r == b && q % 2 == 0) {
        q
    } else {
        q + 1
    }
}

/// The distance between neighbouring double-precision numbers at `n`.
fn gap_at(n: u64) -> (r: u128)
    ensures
        r == double_gap(n as nat),
        r == 1 || 2 <= r && r * 0x10_0000_0000_0000 <= n,
    decreases n,
{
    if n < 0x20_0000_0000_0000 {
        1
    } else {
        2 * gap_at(n / 2)
    }
}

/// `bytes` in units of `unit` with two decimals and the unit's name.
fn in_units(bytes: u64, unit: u128, name: &str) -> (r: String)
    requires
        0 < unit <= 0x100_0000_0000,
        unit >= 0x400,
    ensures
        r@ == two_decimals(hundredths(bytes as nat, unit as nat)) + name@,
{
    let gap: u128 = gap_at(bytes);
    let m: u128 = divide_half_even(bytes as u128, gap);
    proof {
        lemma_double(bytes as nat);
    }
    let h: u128 = divide_half_even(100 * (m * gap), unit);
    proof {
        lemma_small_quotient((100 * (m * gap)) as nat, unit as nat);
    }
    let mut out = decimal_text((h / 100) as u64);
    out.push_str(".");
    out.push_str(decimal_text((h / 10 % 10) as u64).as_str());
    out.push_str(decimal_text((h % 10) as u64).as_str());
    out.push_str(name);
    out
}

/// Rounding to double precision moves a number by less than half its gap.
proof fn lemma_double(n: nat)
    requires
        n <= u64::MAX,
    ensures
        double_gap(n) > 0,
        double_value(n) <= 2 * n + 2,
{
    lemma_gap(n);
    let g = double_gap(n) as int;
    let q = n as int / g;
    vstd::arithmetic::div_mod::lemma_fundamental_div_mod(n as int, g);
    vstd::arithmetic::div_mod::lemma_mod_bound(n as int, g);
    assert((q + 1) * g == g * q + g) by (nonlinear_arith);
    assert(q * g == g * q) by (nonlinear_arith);
    assert(q >= 0) by (nonlinear_arith)
        requires
            q == n as int / g,
            g > 0,
            n as int >= 0,
    ;
    assert(round_half_even(n, g as nat) == q || round_half_even(n, g as nat) == q + 1);
}

proof fn lemma_gap(n: nat)
    ensures
        double_gap(n) == 1 || 0 < double_gap(n) <= n,
    decreases n,
{
    if n >= 0x20_0000_0000_0000 {
        lemma_gap(n / 2);
    }
}

/// A quotient by at least 1024 of a number below 2^75 is at most 2^65.
proof fn lemma_small_quotient(a: nat, b: nat)
    requires
        b >= 0x400,
        a < 0x800_0000_0000_0000_0000,
    ensures
        round_half_even(a, b) <= a / 0x400 + 1,
        a / 0x400 + 1 <= 0x2_0000_0000_0000_0000,
{
    assert(a / b <= a / 0x400) by (nonlinear_arith)
        requires
            b >= 0x400,
    ;
}

/// A number of bytes in a readable form, with binary units.
pub fn human_bytes(bytes: u64) -> (r: String)
    ensures
        r@ == readable(bytes as nat),
{
    if bytes < 0x400 {
        let mut out = decimal_text(bytes);
        out.push_str(" B");
        out
    } else if bytes < 0x10_0000 {
        in_units(bytes, 0x400, " KiB")
    } else if bytes < 0x4000_0000 {
        in_units(bytes, 0x10_0000, " MiB")
    } else if bytes < 0x100_0000_0000 {
        in_units(bytes, 0x4000_0000, " GiB")
    } else {
        in_units(bytes, 0x100_0000_0000, " TiB")
    }
}

// ── accounting ──────────────────────────────────────────────────────────────

/// The figures of one profile.
#[derive(Debug, Clone, PartialEq, Eq)]
pub struct DataUsage {
    /// The profile.
    pub profile: String,
    /// Bytes received in this session.
    pub session_rx: u64,
    /// Bytes sent in this session.
    pub session_tx: u64,
    /// Bytes received in all.
    pub total_rx: u64,
    /// Bytes sent in all.
    pub total_tx: u64,
}

/// What the figures of a profile say.
pub struct UsageModel {
    pub profile: Seq<char>,
    pub session_rx: u64,
    pub session_tx: u64,
    pub total_rx: u64,
    pub total_tx: u64,
}

impl View for DataUsage {
    type V = UsageModel;

    open spec fn view(&self) -> UsageModel {
        UsageModel {
            profile: self.profile@,
            session_rx: self.session_rx,
            session_tx: self.session_tx,
            total_rx: self.total_rx,
            total_tx: self.total_tx,
        }
    }
}

/// Figures that are all zero.
pub open spec fn no_usage(profile: Seq<char>) -> UsageModel {
    UsageModel { profile, session_rx: 0, session_tx: 0, total_rx: 0, total_tx: 0 }
}

impl DataUsage {
    /// Figures for `profile` that are all zero.
    pub fn new(profile: &str) -> (r: Self)
        ensures
            r@ == no_usage(profile@),
    {
        DataUsage {
            profile: profile.to_owned(),
            session_rx: 0,
            session_tx: 0,
            total_rx: 0,
            total_tx: 0,
        }
    }

    /// A copy that says the same.
    pub fn duplicate(&self) -> (r: Self)
        ensures
            r@ == self@,
    {
        DataUsage {
            profile: self.profile.clone(),
            session_rx: self.session_rx,
            session_tx: self.session_tx,
            total_rx: self.total_rx,
            total_tx: self.total_tx,
        }
    }
}

impl Default for DataUsage {
    fn default() -> (r: Self)
        ensures
            r@ == no_usage(Seq::empty()),
    {
        DataUsage {
            profile: String::new(),
            session_rx: 0,
            session_tx: 0,
            total_rx: 0,
            total_tx: 0,
        }
    }
}

/// The figures of all profiles, and the counter readings they were last computed from.
#[derive(Debug)]
pub struct UsageStore {
    /// Figures by profile.
    pub usage: Table<DataUsage>,
    /// The last readings of the received and the sent counter by profile.
    pub last_seen: Table<(u64, u64)>,
}

/// Two counter readings.
pub type Reading = (u64, u64);

/// What a store says: the figures and the last readings by profile.
pub struct StoreModel {
    pub figures: Map<Seq<char>, UsageModel>,
    pub readings: Map<Seq<char>, Reading>,
}

impl View for UsageStore {
    type V = StoreModel;

    open spec fn view(&self) -> StoreModel {
        StoreModel {
            figures: self.usage@.map_values(|u: DataUsage| u@),
            readings: self.last_seen@,
        }
    }
}

/// A store that knows of no profile.
pub open spec fn empty_store() -> StoreModel {
    StoreModel { figures: Map::empty(), readings: Map::empty() }
}

/// A store after a reading of the counters for `profile`.
pub open spec fn store_after_reading(s: StoreModel, profile: Seq<char>, now: Reading) -> StoreModel {
    let figures = if s.figures.dom().contains(profile) {
        s.figures[profile]
    } else {
        no_usage(profile)
    };
    let last = if s.readings.dom().contains(profile) {
        Some(s.readings[profile])
    } else {
        None
    };
    StoreModel {
        figures: s.figures.insert(profile, after_reading(figures, last, now)),
        readings: s.readings.insert(profile, now),
    }
}

/// A store after a new session has begun for `profile`.
pub open spec fn store_after_reset(s: StoreModel, profile: Seq<char>) -> StoreModel {
    StoreModel {
        figures: if s.figures.dom().contains(profile) {
            s.figures.insert(
                profile,
                UsageModel { session_rx: 0, session_tx: 0, ..s.figures[profile] },
            )
        } else {
            s.figures
        },
        readings: s.readings.remove(profile),
    }
}

impl UsageStore {
    /// The figures of a profile.
    pub open spec fn figures(&self, profile: Seq<char>) -> Option<UsageModel> {
        if self.usage@.dom().contains(profile) {
            Some(self.usage@[profile]@)
        } else {
            None
        }
    }

    /// The last readings for a profile.
    pub open spec fn reading(&self, profile: Seq<char>) -> Option<Reading> {
        if self.last_seen@.dom().contains(profile) {
            Some(self.last_seen@[profile])
        } else {
            None
        }
    }
}

impl Default for UsageStore {
    fn default() -> (r: Self)
        ensures
            r@ == empty_store(),
    {
        let r = UsageStore { usage: Table::new(), last_seen: Table::new() };
        assert(r@.figures =~= empty_store().figures);
        r
    }
}

/// `a + b`, or the greatest number that fits where the sum does not.
pub open spec fn capped_sum(a: u64, b: u64) -> u64 {
    if a + b <= u64::MAX {
        (a + b) as u64
    } else {
        u64::MAX
    }
}

/// Whether a reading begins a new session: there is none before it, or one of the counters has
/// gone down.
pub open spec fn begins_session(before: Option<Reading>, now: Reading) -> bool {
    match before {
        None => true,
        Some(last) => now.0 < last.0 || now.1 < last.1,
    }
}

/// The figures of a profile after a reading. A reading that begins a session sets the session to
/// zero and adds nothing in all; any other adds what the counters have grown by to both.
pub open spec fn after_reading(
    before: UsageModel,
    last: Option<Reading>,
    now: Reading,
) -> UsageModel {
    if begins_session(last, now) {
        UsageModel { session_rx: 0, session_tx: 0, ..before }
    } else {
        let rx = (now.0 - (last->0).0) as u64;
        let tx = (now.1 - (last->0).1) as u64;
        UsageModel {
            profile: before.profile,
            session_rx: capped_sum(before.session_rx, rx),
            session_tx: capped_sum(before.session_tx, tx),
            total_rx: capped_sum(before.total_rx, rx),
            total_tx: capped_sum(before.total_tx, tx),
        }
    }
}

/// The figures of a profile, all zero where there are none.
pub open spec fn figures_or_none(u: Option<UsageModel>, profile: Seq<char>) -> UsageModel {
    match u {
        Some(u) => u,
        None => no_usage(profile),
    }
}

/// The failure of saving figures to a path that has no parent directory.
pub fn no_parent(path: &str) -> (r: AppError)
    ensures
        r matches AppError::SettingsSaveFailed(t) && t@ == "no parent directory for "@ + path@,
{
    AppError::SettingsSaveFailed(text2("no parent directory for ", path))
}

impl UsageStore {
    /// The figures that reading their file gave: none where there is no file yet.
    pub fn load(read: FileRead<UsageStore>) -> (r: AppResult<Self>)
        ensures
            match read {
                FileRead::Found(s) => r == Ok::<UsageStore, AppError>(s),
                FileRead::Missing => r matches Ok(s) && s@ == empty_store(),
                _ => r matches Err(AppError::SettingsLoadFailed(t))
                    && crate::settings::load_failure(read) == Some(t@),
            },
    {
        match load_error(&read) {
            Some(e) => Err(e),
            None => match read {
                FileRead::Found(s) => Ok(s),
                _ => Ok(UsageStore::default()),
            },
        }
    }

    /// The result of saving figures.
    pub fn save(write: FileWrite) -> (r: AppResult<()>)
        ensures
            match r {
                Ok(()) => write is Written,
                Err(AppError::SettingsSaveFailed(t)) => crate::settings::save_failure(write)
                    == Some(t@),
                Err(_) => false,
            },
    {
        save_result(&write)
    }

    /// The figures of a profile.
    pub fn get(&self, profile: &str) -> (r: Option<&DataUsage>)
        ensures
            match r {
                Some(u) => self.figures(profile@) == Some(u@),
                None => self.figures(profile@) is None,
            },
    {
        self.usage.get(profile)
    }

    /// Takes a reading of the counters for `profile` and gives its new figures. Nothing changes
    /// for any other profile.
    pub fn record(&mut self, profile: &str, cumulative_rx: u64, cumulative_tx: u64) -> (r: DataUsage)
        ensures
            r@ == after_reading(
                figures_or_none(old(self).figures(profile@), profile@),
                old(self).reading(profile@),
                (cumulative_rx, cumulative_tx),
            ),
            final(self)@ == store_after_reading(old(self)@, profile@, (cumulative_rx, cumulative_tx)),
            final(self).figures(profile@) == Some(r@),
            final(self).reading(profile@) == Some((cumulative_rx, cumulative_tx)),
            forall|k: Seq<char>|
                k != profile@ ==> #[trigger] final(self).figures(k) == old(self).figures(k),
            forall|k: Seq<char>|
                k != profile@ ==> #[trigger] final(self).reading(k) == old(self).reading(k),
    {
        let last: Option<(u64, u64)> = match self.last_seen.get(profile) {
            Some(p) => Some(*p),
            None => None,
        };
        let mut entry = match self.usage.get(profile) {
            Some(u) => u.duplicate(),
            None => DataUsage::new(profile),
        };
        let (delta_rx, delta_tx, reset): (u64, u64, bool) = match last {
            None => (0, 0, true),
            Some((last_rx, last_tx)) => {
                if cumulative_rx < last_rx || cumulative_tx < last_tx {
                    (0, 0, true)
                } else {
                    (cumulative_rx - last_rx, cumulative_tx - last_tx, false)
                }
            },
        };
        if reset {
            entry.session_rx = 0;
            entry.session_tx = 0;
        } else {
            entry.session_rx = entry.session_rx.saturating_add(delta_rx);
            entry.session_tx = entry.session_tx.saturating_add(delta_tx);
        }
        entry.total_rx = entry.total_rx.saturating_add(delta_rx);
        entry.total_tx = entry.total_tx.saturating_add(delta_tx);
        let out = entry.duplicate();
        self.usage.insert(profile.to_owned(), entry);
        self.last_seen.insert(profile.to_owned(), (cumulative_rx, cumulative_tx));
        assert(self@.figures =~= store_after_reading(
            old(self)@,
            profile@,
            (cumulative_rx, cumulative_tx),
        ).figures);
        out
    }

    /// Begins a new session for `profile`: its session figures become zero, and the next reading
    /// is taken as a new start. What was counted in all stays, and so does every other profile.
    pub fn reset_session(&mut self, profile: &str)
        ensures
            final(self)@ == store_after_reset(old(self)@, profile@),
            final(self).figures(profile@) == (match old(self).figures(profile@) {
                Some(u) => Some(UsageModel { session_rx: 0, session_tx: 0, ..u }),
                None => None,
            }),
            final(self).reading(profile@) is None,
            forall|k: Seq<char>|
                k != profile@ ==> #[trigger] final(self).figures(k) == old(self).figures(k),
            forall|k: Seq<char>|
                k != profile@ ==> #[trigger] final(self).reading(k) == old(self).reading(k),
    {
        let fresh = match self.usage.get(profile) {
            Some(u) => {
                let mut e = u.duplicate();
                e.session_rx = 0;
                e.session_tx = 0;
                Some(e)
            },
            None => None,
        };
        if let Some(e) = fresh {
            self.usage.insert(profile.to_owned(), e);
        }
        self.last_seen.remove(profile);
        assert(self@.figures =~= store_after_reset(old(self)@, profile@).figures);
    }
}

// ── laws ────────────────────────────────────────────────────────────────────

/// What was counted in all never shrinks, whatever is read.
pub proof fn law_totals_never_shrink(before: UsageModel, last: Option<Reading>, now: Reading)
    ensures
        after_reading(before, last, now).total_rx >= before.total_rx,
        after_reading(before, last, now).total_tx >= before.total_tx,
        after_reading(before, last, now).profile == before.profile,
{
}

/// What was counted in a session is part of what was counted in all: readings keep it so.
pub proof fn law_session_within_total(before: UsageModel, last: Option<Reading>, now: Reading)
    requires
        before.session_rx <= before.total_rx,
        before.session_tx <= before.total_tx,
    ensures
        after_reading(before, last, now).session_rx <= after_reading(before, last, now).total_rx,
        after_reading(before, last, now).session_tx <= after_reading(before, last, now).total_tx,
{
}

/// A reading that begins a session counts nothing, and the next one counts exactly what the
/// counters have grown by since.
pub proof fn law_first_reading_is_the_baseline(
    before: UsageModel,
    last: Option<Reading>,
    first: Reading,
    second: Reading,
)
    requires
        begins_session(last, first),
        first.0 <= second.0,
        first.1 <= second.1,
    ensures
        ({
            let one = after_reading(before, last, first);
            let two = after_reading(one, Some(first), second);
            &&& one.session_rx == 0 && one.session_tx == 0
            &&& one.total_rx == before.total_rx && one.total_tx == before.total_tx
            &&& two.session_rx == second.0 - first.0
            &&& two.session_tx == second.1 - first.1
            &&& two.total_rx == capped_sum(before.total_rx, (second.0 - first.0) as u64)
            &&& two.total_tx == capped_sum(before.total_tx, (second.1 - first.1) as u64)
        }),
{
}

/// What is received counts as received and what is sent as sent: while both counters grow, each
/// figure grows by what its own counter has grown by.
pub proof fn law_each_counter_has_its_figures(
    store: &mut UsageStore,
    profile: &str,
    last: Reading,
    now: Reading,
    r: DataUsage,
)
    requires
        call_ensures(UsageStore::record, (store, profile, now.0, now.1), r),
        old(store).reading(profile@) == Some(last),
        old(store).figures(profile@) is Some,
        last.0 <= now.0,
        last.1 <= now.1,
        old(store).figures(profile@)->0.session_rx + now.0 <= u64::MAX,
        old(store).figures(profile@)->0.session_tx + now.1 <= u64::MAX,
        old(store).figures(profile@)->0.total_rx + now.0 <= u64::MAX,
        old(store).figures(profile@)->0.total_tx + now.1 <= u64::MAX,
    ensures
        ({
            let was = old(store).figures(profile@)->0;
            &&& r.session_rx - was.session_rx == now.0 - last.0
            &&& r.session_tx - was.session_tx == now.1 - last.1
            &&& r.total_rx - was.total_rx == now.0 - last.0
            &&& r.total_tx - was.total_tx == now.1 - last.1
            &&& r.profile@ == was.profile
            &&& final(store).figures(profile@) == Some(r@)
            &&& final(store).reading(profile@) == Some(now)
        }),
{
    assert(r@.session_rx == r.session_rx && r@.total_rx == r.total_rx);
}

/// A profile that is read for the first time has moved nothing yet, whatever its counters say; and
/// counters that have gone down begin a session without taking from what was counted in all.
pub proof fn law_sessions_begin_at_zero(
    store: &mut UsageStore,
    profile: &str,
    rx: u64,
    tx: u64,
    r: DataUsage,
)
    requires
        call_ensures(UsageStore::record, (store, profile, rx, tx), r),
        match old(store).reading(profile@) {
            None => true,
            Some(last) => rx < last.0 || tx < last.1,
        },
    ensures
        r.session_rx == 0 && r.session_tx == 0,
        old(store).figures(profile@) is None ==> r.total_rx == 0 && r.total_tx == 0 && r.profile@
            == profile@,
        old(store).figures(profile@) is Some ==> r.total_rx == old(store).figures(
            profile@,
        )->0.total_rx && r.total_tx == old(store).figures(profile@)->0.total_tx,
        final(store).reading(profile@) == Some((rx, tx)),
{
    assert(r@.session_rx == r.session_rx && r@.total_rx == r.total_rx && r@.total_tx == r.total_tx);
}

/// What a profile moves is not counted for another.
pub proof fn law_profiles_are_counted_apart(
    store: &mut UsageStore,
    profile: &str,
    other: Seq<char>,
    rx: u64,
    tx: u64,
    r: DataUsage,
)
    requires
        call_ensures(UsageStore::record, (store, profile, rx, tx), r),
        other != profile@,
    ensures
        final(store).figures(other) == old(store).figures(other),
        final(store).reading(other) == old(store).reading(other),
{
}

/// A new session starts at zero, keeps what was counted in all, and forgets the last reading.
pub proof fn law_a_reset_keeps_the_totals(store: &mut UsageStore, profile: &str, other: Seq<char>)
    requires
        call_ensures(UsageStore::reset_session, (store, profile), ()),
        old(store).figures(profile@) is Some,
        other != profile@,
    ensures
        ({
            let was = old(store).figures(profile@)->0;
            let now = final(store).figures(profile@)->0;
            &&& final(store).figures(profile@) is Some
            &&& now.session_rx == 0 && now.session_tx == 0
            &&& now.total_rx == was.total_rx && now.total_tx == was.total_tx
            &&& now.profile == was.profile
            &&& final(store).reading(profile@) is None
            &&& final(store).figures(other) == old(store).figures(other)
            &&& final(store).reading(other) == old(store).reading(other)
        }),
{
}

/// A whole number of units is shown as such, with two zeros behind the point; below one KiB the
/// bytes are shown.
pub proof fn law_whole_units_are_shown_whole(n: nat)
    ensures
        n < 1024 ==> readable(n) == crate::text::decimal(n) + " B"@,
        1 <= n < 1024 ==> readable(n * 1024) == crate::text::decimal(n) + ".00 KiB"@,
        1 <= n < 1024 ==> readable(n * 1024 * 1024) == crate::text::decimal(n) + ".00 MiB"@,
        1 <= n < 1024 ==> readable(n * 1024 * 1024 * 1024) == crate::text::decimal(n)
            + ".00 GiB"@,
        1 <= n < 1024 ==> readable(n * 1024 * 1024 * 1024 * 1024) == crate::text::decimal(n)
            + ".00 TiB"@,
{
    if 1 <= n < 1024 {
        lemma_whole(n, 0x400, " KiB"@);
        lemma_whole(n, 0x10_0000, " MiB"@);
        lemma_whole(n, 0x4000_0000, " GiB"@);
        lemma_whole(n, 0x100_0000_0000, " TiB"@);
        reveal_strlit(".");
        reveal_strlit(" KiB");
        reveal_strlit(" MiB");
        reveal_strlit(" GiB");
        reveal_strlit(" TiB");
        reveal_strlit(".00 KiB");
        reveal_strlit(".00 MiB");
        reveal_strlit(".00 GiB");
        reveal_strlit(".00 TiB");
        let d = crate::text::decimal(n);
        let z = seq!['.', '0', '0'];
        assert(d + ".00 KiB"@ =~= d + z + " KiB"@);
        assert(d + ".00 MiB"@ =~= d + z + " MiB"@);
        assert(d + ".00 GiB"@ =~= d + z + " GiB"@);
        assert(d + ".00 TiB"@ =~= d + z + " TiB"@);
        assert(n * 1024 == n * 0x400);
        assert(n * 1024 * 1024 == n * 0x10_0000);
        assert(n * 1024 * 1024 * 1024 == n * 0x4000_0000);
        assert(n * 1024 * 1024 * 1024 * 1024 == n * 0x100_0000_0000);
    }
}

/// A whole number of units in hundredths.
proof fn lemma_whole(n: nat, unit: nat, name: Seq<char>)
    requires
        1 <= n < 1024,
        0x400 <= unit <= 0x100_0000_0000,
    ensures
        two_decimals(hundredths(n * unit, unit)) + name == crate::text::decimal(n) + seq![
            '.',
            '0',
            '0',
        ] + name,
{
    let m = n * unit;
    assert(m < 0x20_0000_0000_0000) by (nonlinear_arith)
        requires
            m == n * unit,
            n < 1024,
            unit <= 0x100_0000_0000,
    ;
    assert(double_gap(m) == 1);
    assert(round_half_even(m, 1) == m);
    assert(double_value(m) == m);
    let h = 100 * n;
    assert(100 * m == h * unit) by (nonlinear_arith)
        requires
            m == n * unit,
            h == 100 * n,
    ;
    assert((h * unit) / unit == h && (h * unit) % unit == 0) by (nonlinear_arith)
        requires
            unit > 0,
    ;
    assert(hundredths(m, unit) == h);
    assert(h / 100 == n && h / 10 % 10 == 0 && h % 10 == 0);
    reveal_strlit(".");
    let zero = crate::text::decimal(0);
    assert(zero =~= seq!['0']);
    assert(two_decimals(h) =~= crate::text::decimal(n) + seq!['.', '0', '0']);
}

/// What is shown is as near to the number as two decimals allow: the hundredths that are shown are
/// at most half a hundredth of the unit off.
pub proof fn law_shown_sizes_are_near(bytes: nat, unit: nat)
    requires
        bytes < 0x20_0000_0000_0000,
        unit > 0,
    ensures
        ({
            let h = hundredths(bytes, unit);
            &&& 2 * (h * unit) <= 2 * (100 * bytes) + unit
            &&& 2 * (100 * bytes) <= 2 * (h * unit) + unit
        }),
{
    assert(double_gap(bytes) == 1);
    assert(round_half_even(bytes, 1) == bytes);
    assert(double_value(bytes) == bytes);
    let a = 100 * bytes;
    let q = a / unit;
    let r = a % unit;
    assert(a == q * unit + r && 0 <= r < unit) by (nonlinear_arith)
        requires
            unit > 0,
            q == a / unit,
            r == a % unit,
    ;
    assert((q + 1) * unit == q * unit + unit) by (nonlinear_arith);
}

/// From 1 KiB on the unit is the greatest one that the number reaches.
pub proof fn law_the_greatest_unit_is_shown(bytes: nat)
    requires
        bytes >= 1024,
    ensures
        ({
            let s = readable(bytes);
            let unit = if bytes < 1024 * 1024 {
                " KiB"@
            } else if bytes < 1024 * 1024 * 1024 {
                " MiB"@
            } else if bytes < 1024 * 1024 * 1024 * 1024 {
                " GiB"@
            } else {
                " TiB"@
            };
            unit.is_suffix_of(s)
        }),
{
    reveal_strlit(" KiB");
    reveal_strlit(" MiB");
    reveal_strlit(" GiB");
    reveal_strlit(" TiB");
    let s = readable(bytes);
    assert(s.skip(s.len() - 4) =~= (if bytes < 1024 * 1024 {
        " KiB"@
    } else if bytes < 1024 * 1024 * 1024 {
        " MiB"@
    } else if bytes < 1024 * 1024 * 1024 * 1024 {
        " GiB"@
    } else {
        " TiB"@
    }));
}

} // verus!

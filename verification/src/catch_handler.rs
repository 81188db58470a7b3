//! The cast session: one rod in the water at a time, from the cast to the
//! moment the line comes back.
//!
//! A session is idle or cast. [`cast_rod`] takes an idle session to cast and
//! fixes what is on the line, how long the cast takes and whether the fish
//! stays on. [`schedule`] is the poll of the scheduler: once the time of the
//! cast is over it settles the outcome, books a catch in the player's
//! progress and takes the session back to idle.

use vstd::prelude::*;
use vstd::string::StringExecFns;
use crate::data::fish::{Fish, FishData};
use crate::data::rods::{Rod, RodData};
use crate::data::userfile::{UserValues, UserValuesView};
use crate::random::random_range;
use crate::text::{decimal, decimal_text, tenths, tenths_text};

verus! {

/// How a cast ended.
#[derive(Debug, Clone, Copy, PartialEq, Eq, Structural)]
pub enum Outcome {
    /// The fish was landed and booked.
    Caught,
    /// The fish got away.
    Missed,
    /// The fish was heavier than the line holds.
    LineBroke,
    /// A turtle took the fish off the line.
    Interfered,
}

/// An interference roll out of 100 at or above this voids the cast.
pub const INTERFERENCE_FROM: u32 = 98;

/// The milliseconds that each tenth of a pound above the average weight of
/// its species adds to a cast, and each tenth below takes off it.
pub const WEIGHT_ADD_TIME: i64 = 5;

/// The state of the one cast session. Times are in milliseconds since the
/// epoch, the duration in seconds.
#[derive(Debug)]
pub struct CatchData {
    /// Whether a rod is in the water.
    pub cast: bool,
    pub cast_time: Option<i64>,
    pub cast_duration: Option<i64>,
    /// The label of the cast button.
    pub cast_btn_txt: String,
    /// What the player is told.
    pub display_text: String,
    /// Whether the fish stays on the line, fixed when the rod is cast.
    pub will_catch: bool,
    pub fish: Option<Fish>,
    /// Whether the last cast ended with a catch.
    pub caught: bool,
    /// Whether the last cast was void through interference.
    pub was_turtle: bool,
    /// How the last cast ended; nothing from the moment a rod is cast until
    /// that cast is settled.
    pub last_result: Option<Outcome>,
    /// Cleared to stop the scheduler.
    pub running: bool,
}

/// A session as plain values.
pub struct CatchDataView {
    pub cast: bool,
    pub cast_time: Option<i64>,
    pub cast_duration: Option<i64>,
    pub cast_btn_txt: Seq<char>,
    pub display_text: Seq<char>,
    pub will_catch: bool,
    pub fish: Option<Fish>,
    pub caught: bool,
    pub was_turtle: bool,
    pub last_result: Option<Outcome>,
    pub running: bool,
}

impl View for CatchData {
    type V = CatchDataView;

    open spec fn view(&self) -> CatchDataView {
        CatchDataView {
            cast: self.cast,
            cast_time: self.cast_time,
            cast_duration: self.cast_duration,
            cast_btn_txt: self.cast_btn_txt@,
            display_text: self.display_text@,
            will_catch: self.will_catch,
            fish: self.fish,
            caught: self.caught,
            was_turtle: self.was_turtle,
            last_result: self.last_result,
            running: self.running,
        }
    }
}

/// What fixes a cast: the time at which the rod is cast, the rod's name, the
/// fish on the line, the rod's time in milliseconds, and the rod's catch
/// chance with the roll out of 1000 that is held against it.
pub struct CastPlan {
    pub now: i64,
    pub rod: Seq<char>,
    pub fish: Fish,
    pub catch_time: int,
    pub chance: int,
    pub roll: int,
}

/// What the window shows of a session.
#[derive(Debug)]
pub struct DisplaySnapshot {
    /// Whether a rod is in the water.
    pub busy: bool,
    pub button_label: String,
    pub message: String,
    pub last_result: Option<Outcome>,
}

/// Whether a roll out of 1000 lets the fish stay on a line whose catch
/// chance is `chance` thousandths.
pub open spec fn spec_will_catch(chance: int, roll: int) -> bool {
    roll < chance
}

/// The seconds a cast takes: the rod's time in milliseconds, longer or
/// shorter by [`WEIGHT_ADD_TIME`] for each tenth of a pound that the fish is
/// above or below the average of its species, cut down to whole seconds
/// towards zero.
pub open spec fn spec_cast_duration(catch_time: int, fish: Fish) -> int {
    let millis = catch_time + WEIGHT_ADD_TIME * (fish.weight - 10 * fish.fish_type.avg_weight);
    if millis >= 0 {
        millis / 1000
    } else {
        -((-millis) / 1000)
    }
}

/// How a cast that is over ends. A fish above the rod's weight limit breaks
/// the line whatever else holds. Else an interference roll of
/// [`INTERFERENCE_FROM`] or more voids the cast. Else the fish is caught or
/// missed as was fixed when the rod was cast.
pub open spec fn spec_decide(
    fish: Fish,
    will_catch: bool,
    weight_limit: int,
    roll: int,
) -> Outcome {
    if fish.weight > 10 * weight_limit {
        Outcome::LineBroke
    } else if roll >= INTERFERENCE_FROM {
        Outcome::Interfered
    } else if will_catch {
        Outcome::Caught
    } else {
        Outcome::Missed
    }
}

/// What the player is told of an outcome; `value` is what a catch sold for.
pub open spec fn spec_message(outcome: Outcome, fish: Fish, value: int) -> Seq<char> {
    let weight = tenths_text(fish.weight as nat);
    match outcome {
        Outcome::LineBroke => "Your line broke! The "@ + weight + "lb "@ + fish.spec_name()
            + " was too heavy!"@,
        Outcome::Interfered => "🐢 A turtle stole your "@ + weight + "lb "@ + fish.spec_name()
            + "! 🐢"@,
        Outcome::Caught => "You caught a $"@ + decimal_text(value as nat) + " "@
            + fish.spec_name() + " at "@ + weight + "lbs!"@,
        Outcome::Missed => "A "@ + weight + "lbs "@ + fish.spec_name()
            + " got away! Better luck next time!"@,
    }
}

/// The progress record after a cast with `fish` on the line ended: a catch
/// is booked at the fish's value, any other outcome leaves the record as it
/// was.
pub open spec fn spec_progress(
    progress: UserValuesView,
    outcome: Outcome,
    fish: Fish,
    weight_factor: int,
) -> UserValuesView {
    if outcome == Outcome::Caught {
        progress.spec_record_catch(fish.spec_value(weight_factor) as nat, fish.fish_type.name@)
    } else {
        progress
    }
}

impl CatchDataView {
    /// Whether the session holds all that a cast in progress needs.
    pub open spec fn spec_complete(self) -> bool {
        self.fish is Some && self.cast_time is Some && self.cast_duration is Some
    }

    /// Whether a poll at `now` finds a cast to settle: the scheduler runs, a
    /// complete cast is in progress, and its duration has passed.
    pub open spec fn spec_is_due(self, now: int) -> bool {
        &&& self.running
        &&& self.cast
        &&& self.spec_complete()
        &&& now - self.cast_time.unwrap() >= 1000 * self.cast_duration.unwrap()
    }

    /// The idle session that a finished cast leaves.
    pub open spec fn spec_reset(self) -> CatchDataView {
        CatchDataView {
            cast: false,
            cast_time: None,
            cast_duration: None,
            cast_btn_txt: "Cast rod"@,
            will_catch: false,
            fish: None,
            ..self
        }
    }

    /// The session after a poll at `now` that settles nothing. A stopped or
    /// idle session stays as it is. A cast in progress loses the mark of an
    /// earlier interference, and one that lacks its fish or its times is
    /// dropped.
    pub open spec fn spec_polled(self) -> CatchDataView {
        if !self.running || !self.cast {
            self
        } else if !self.spec_complete() {
            CatchDataView { was_turtle: false, ..self.spec_reset() }
        } else {
            CatchDataView { was_turtle: false, ..self }
        }
    }

    /// The session after its cast ended with `outcome`.
    pub open spec fn spec_resolved(self, outcome: Outcome, weight_factor: int) -> CatchDataView {
        let fish = self.fish.unwrap();
        CatchDataView {
            display_text: spec_message(outcome, fish, fish.spec_value(weight_factor)),
            caught: outcome == Outcome::Caught,
            was_turtle: outcome == Outcome::Interfered,
            last_result: Some(outcome),
            ..self.spec_reset()
        }
    }

    /// The session after the cast that `plan` describes.
    pub open spec fn spec_cast(self, plan: CastPlan) -> CatchDataView {
        CatchDataView {
            cast: true,
            cast_time: Some(plan.now),
            cast_duration: Some(spec_cast_duration(plan.catch_time, plan.fish) as i64),
            cast_btn_txt: "Rod is cast!"@,
            display_text: "You cast your "@ + plan.rod + "!"@,
            will_catch: spec_will_catch(plan.chance, plan.roll),
            fish: Some(plan.fish),
            caught: false,
            last_result: None,
            ..self
        }
    }

    /// The session after a request to cast: the cast that
    /// [`CatchDataView::spec_cast`] describes where the session is idle, and
    /// the session as it is where a rod is already cast.
    pub open spec fn spec_request(self, plan: CastPlan) -> CatchDataView {
        if self.cast {
            self
        } else {
            self.spec_cast(plan)
        }
    }

    /// Whether `after` is a session that a cast of `rod` at `now` may make
    /// of this one: some fish of the catalogue is on the line that the rod
    /// reaches at the fish's rarity, with a weight of its species; the rod's
    /// time was drawn with a multiplier between 0.8 and 1.2, and the catch
    /// roll out of 1000.
    pub open spec fn spec_casts_to(
        self,
        after: CatchDataView,
        now: i64,
        rod: Rod,
        fish_data: &FishData,
    ) -> bool {
        exists|fish: Fish, multiplier: int, roll: int|
            {
                &&& fish_data.fish@.contains(fish.fish_type)
                &&& fish.fish_type.spec_catchable(rod.spec_depth(), fish.rarity)
                &&& fish.spec_weight_in_range()
                &&& 800 <= multiplier < 1200
                &&& 0 <= roll < 1000
                &&& after == #[trigger] self.spec_cast(
                    CastPlan {
                        now,
                        rod: rod.spec_name(),
                        fish,
                        catch_time: rod.spec_catch_time(multiplier),
                        chance: rod.spec_catch_chance(),
                        roll,
                    },
                )
            }
    }
}

/// A fish heavier than the line holds breaks the line and leaves the
/// player's progress as it was, whatever was fixed when the rod was cast and
/// whatever the interference roll.
pub proof fn lemma_heavy_fish_breaks_line(
    fish: Fish,
    will_catch: bool,
    weight_limit: int,
    roll: int,
    progress: UserValuesView,
    weight_factor: int,
)
    requires
        fish.weight > 10 * weight_limit,
    ensures
        spec_decide(fish, will_catch, weight_limit, roll) == Outcome::LineBroke,
        spec_progress(
            progress,
            spec_decide(fish, will_catch, weight_limit, roll),
            fish,
            weight_factor,
        ) == progress,
{
}

/// One rod is in the water at a time: after a request to cast a rod is
/// cast, and whatever a second request before the cast is settled asks
/// for, it changes nothing.
pub proof fn lemma_second_cast_is_refused(session: CatchDataView, first: CastPlan, second: CastPlan)
    ensures
        session.spec_request(first).cast,
        session.spec_request(first).spec_request(second) == session.spec_request(first),
{
}

/// A cast is not settled before its time is over: while less than the
/// duration has passed since the cast, no poll is due.
pub proof fn lemma_not_due_early(session: CatchDataView, now: int)
    requires
        session.spec_complete(),
        now - session.cast_time.unwrap() < 1000 * session.cast_duration.unwrap(),
    ensures
        !session.spec_is_due(now),
{
}

impl Clone for CatchData {
    fn clone(&self) -> (copy: Self)
        ensures
            copy@ == self@,
    {
        CatchData {
            cast: self.cast,
            cast_time: self.cast_time,
            cast_duration: self.cast_duration,
            cast_btn_txt: self.cast_btn_txt.clone(),
            display_text: self.display_text.clone(),
            will_catch: self.will_catch,
            fish: match &self.fish {
                Some(fish) => Some(fish.clone()),
                None => None,
            },
            caught: self.caught,
            was_turtle: self.was_turtle,
            last_result: self.last_result,
            running: self.running,
        }
    }
}

impl CatchData {
    /// An idle session with the scheduler running.
    pub fn new() -> (data: CatchData)
        ensures
            data@ == (CatchDataView {
                cast: false,
                cast_time: None,
                cast_duration: None,
                cast_btn_txt: "Cast rod"@,
                display_text: "Click the button to fish!"@,
                will_catch: false,
                fish: None,
                caught: false,
                was_turtle: false,
                last_result: None,
                running: true,
            }),
    {
        CatchData {
            cast: false,
            cast_time: None,
            cast_duration: None,
            cast_btn_txt: String::from_str("Cast rod"),
            display_text: String::from_str("Click the button to fish!"),
            will_catch: false,
            fish: None,
            caught: false,
            was_turtle: false,
            last_result: None,
            running: true,
        }
    }

    /// What the window shows of the session.
    pub fn read_display_snapshot(&self) -> (shown: DisplaySnapshot)
        ensures
            shown.busy == self.cast,
            shown.button_label@ == self.cast_btn_txt@,
            shown.message@ == self.display_text@,
            shown.last_result == self.last_result,
    {
        DisplaySnapshot {
            busy: self.cast,
            button_label: self.cast_btn_txt.clone(),
            message: self.display_text.clone(),
            last_result: self.last_result,
        }
    }

    /// Whether a poll at `now` finds a cast to settle.
    pub fn is_due(&self, now: i64) -> (due: bool)
        ensures
            due == self@.spec_is_due(now as int),
    {
        if !self.running || !self.cast || self.fish.is_none() {
            return false;
        }
        match (self.cast_time, self.cast_duration) {
            (Some(start), Some(duration)) => {
                now as i128 - start as i128 >= 1000 * (duration as i128)
            },
            _ => false,
        }
    }
}

/// Takes the session back to idle: no cast, no fish, no times, and the cast
/// button offers a cast again. What the player was told stays.
pub fn reset(data: &mut CatchData)
    ensures
        final(data)@ == old(data)@.spec_reset(),
{
    data.cast = false;
    data.fish = None;
    data.will_catch = false;
    data.cast_time = None;
    data.cast_duration = None;
    data.cast_btn_txt = String::from_str("Cast rod");
}

/// Whether a roll out of 1000 lets the fish stay on a line whose catch
/// chance is `chance` thousandths: a roll below the chance does.
pub fn will_catch_for(chance: u32, roll: u32) -> (stays: bool)
    ensures
        stays == spec_will_catch(chance as int, roll as int),
{
    roll < chance
}

/// The seconds a cast takes when the rod's time is `catch_time`
/// milliseconds and `fish` is on the line.
pub fn cast_duration(catch_time: u64, fish: &Fish) -> (seconds: i64)
    ensures
        seconds == spec_cast_duration(catch_time as int, *fish),
{
    let millis: i128 = catch_time as i128 + (WEIGHT_ADD_TIME as i128) * (fish.weight as i128 - 10
        * (fish.fish_type.avg_weight as i128));
    if millis >= 0 {
        (millis / 1000) as i64
    } else {
        -(((-millis) / 1000) as i64)
    }
}

/// What the player is told of an outcome; `value` is what a catch sold for.
pub fn message(outcome: Outcome, fish: &Fish, value: u32) -> (text: String)
    ensures
        text@ == spec_message(outcome, *fish, value as int),
{
    let weight = tenths(fish.weight as u64);
    let name = fish.to_string();
    match outcome {
        Outcome::LineBroke => {
            let mut text = String::from_str("Your line broke! The ");
            text.append(weight.as_str());
            text.append("lb ");
            text.append(name.as_str());
            text.append(" was too heavy!");
            text
        },
        Outcome::Interfered => {
            let mut text = String::from_str("🐢 A turtle stole your ");
            text.append(weight.as_str());
            text.append("lb ");
            text.append(name.as_str());
            text.append("! 🐢");
            text
        },
        Outcome::Caught => {
            let mut text = String::from_str("You caught a $");
            text.append(decimal(value as u64).as_str());
            text.append(" ");
            text.append(name.as_str());
            text.append(" at ");
            text.append(weight.as_str());
            text.append("lbs!");
            text
        },
        Outcome::Missed => {
            let mut text = String::from_str("A ");
            text.append(weight.as_str());
            text.append("lbs ");
            text.append(name.as_str());
            text.append(" got away! Better luck next time!");
            text
        },
    }
}

/// How a cast that is over ends, for a given interference roll out of 100.
pub fn decide(fish: &Fish, will_catch: bool, weight_limit: u32, roll: u32) -> (outcome: Outcome)
    ensures
        outcome == spec_decide(*fish, will_catch, weight_limit as int, roll as int),
{
    if fish.weight as u64 > 10 * (weight_limit as u64) {
        Outcome::LineBroke
    } else if roll >= INTERFERENCE_FROM {
        Outcome::Interfered
    } else if will_catch {
        Outcome::Caught
    } else {
        Outcome::Missed
    }
}

/// Settles the cast of a session for a given interference roll out of 100:
/// decides the outcome, tells the player, books a catch in `user_file` and
/// takes the session back to idle. No outcome but a catch touches
/// `user_file`.
pub fn resolve(
    data: &mut CatchData,
    user_file: &mut UserValues,
    rod: &Rod,
    fish_data: &FishData,
    roll: u32,
) -> (outcome: Outcome)
    requires
        old(data).fish is Some,
    ensures
        outcome == spec_decide(
            old(data).fish.unwrap(),
            old(data).will_catch,
            rod.spec_weight_limit(),
            roll as int,
        ),
        final(data)@ == old(data)@.spec_resolved(outcome, fish_data.weight_factor as int),
        final(user_file)@ == spec_progress(
            old(user_file)@,
            outcome,
            old(data).fish.unwrap(),
            fish_data.weight_factor as int,
        ),
{
    let fish = data.fish.take().unwrap();
    let outcome = decide(&fish, data.will_catch, rod.get_weight_limit(), roll);
    let value = fish.get_value(fish_data);
    data.display_text = message(outcome, &fish, value);
    data.caught = outcome == Outcome::Caught;
    data.was_turtle = outcome == Outcome::Interfered;
    data.last_result = Some(outcome);
    if outcome == Outcome::Caught {
        user_file.record_catch(value, fish.fish_type.name.as_str());
    }
    reset(data);
    outcome
}

/// One poll of the scheduler at `now`.
///
/// A stopped or idle session is left alone. A cast in progress whose time is
/// not over stays in progress. A cast whose time is over is settled with the
/// rod that `user_file` names and a fresh interference roll, as
/// [`resolve`] says; the outcome is returned, and `user_file` has changed
/// only where it is a catch. A cast that lacks its fish or its times is
/// dropped without an outcome.
pub fn schedule(
    data: &mut CatchData,
    now: i64,
    user_file: &mut UserValues,
    rod_data: &RodData,
    fish_data: &FishData,
) -> (resolved: Option<Outcome>)
    requires
        rod_data.well_formed(),
    ensures
        !old(data)@.spec_is_due(now as int) ==> {
            &&& resolved is None
            &&& final(data)@ == old(data)@.spec_polled()
            &&& final(user_file)@ == old(user_file)@
        },
        old(data)@.spec_is_due(now as int) ==> exists|roll: int|
            {
                &&& 0 <= roll < 100
                &&& resolved == Some(
                    #[trigger] spec_decide(
                        old(data).fish.unwrap(),
                        old(data).will_catch,
                        old(user_file).spec_get_rod(rod_data).spec_weight_limit(),
                        roll,
                    ),
                )
                &&& final(data)@ == old(data)@.spec_resolved(
                    resolved.unwrap(),
                    fish_data.weight_factor as int,
                )
                &&& final(user_file)@ == spec_progress(
                    old(user_file)@,
                    resolved.unwrap(),
                    old(data).fish.unwrap(),
                    fish_data.weight_factor as int,
                )
            },
{
    if !data.running || !data.cast {
        return None;
    }
    let due = data.is_due(now);
    data.was_turtle = false;
    if data.fish.is_none() || data.cast_time.is_none() || data.cast_duration.is_none() {
        reset(data);
        return None;
    }
    if !due {
        return None;
    }
    let rod = user_file.get_rod(rod_data);
    let roll = random_range(0, 100) as u32;
    Some(resolve(data, user_file, &rod, fish_data, roll))
}

/// Casts `rod` at `now` with the three things that chance decides given:
/// the fish on the line, the rod's time in milliseconds, and the catch roll
/// out of 1000. A session that is already cast is left as it is, and the
/// answer is `false`.
pub fn start_cast(
    data: &mut CatchData,
    now: i64,
    rod: &Rod,
    fish: Fish,
    catch_time: u64,
    roll: u32,
) -> (started: bool)
    ensures
        started == !old(data).cast,
        final(data)@ == old(data)@.spec_request(
            CastPlan {
                now,
                rod: rod.spec_name(),
                fish,
                catch_time: catch_time as int,
                chance: rod.spec_catch_chance(),
                roll: roll as int,
            },
        ),
{
    if data.cast {
        return false;
    }
    let mut text = String::from_str("You cast your ");
    text.append(rod.to_string().as_str());
    text.append("!");
    data.display_text = text;
    data.cast = true;
    data.caught = false;
    data.last_result = None;
    data.cast_btn_txt = String::from_str("Rod is cast!");
    data.cast_time = Some(now);
    data.cast_duration = Some(cast_duration(catch_time, &fish));
    data.will_catch = will_catch_for(rod.get_catch_chance(), roll);
    data.fish = Some(fish);
    true
}

/// Casts `rod` at `now`: generates the fish on the line, draws the time the
/// cast takes and rolls once, out of 1000, for whether the fish stays on.
/// A session that is already cast is left as it is, and the answer is
/// `false`.
pub fn cast_rod(data: &mut CatchData, now: i64, rod: &Rod, fish_data: &FishData) -> (started: bool)
    requires
        fish_data.well_formed(),
        fish_data.spec_always_bites(rod.spec_depth()),
    ensures
        started == !old(data).cast,
        final(data).cast,
        old(data).cast ==> final(data)@ == old(data)@,
        !old(data).cast ==> old(data)@.spec_casts_to(final(data)@, now, *rod, fish_data),
{
    if data.cast {
        return false;
    }
    let fish = Fish::random_fish(fish_data, rod);
    let catch_time = rod.random_catch_time();
    let roll = random_range(0, 1000) as u32;
    start_cast(data, now, rod, fish, catch_time, roll)
}

/// Asks for a cast at `now` with the rod that `user_file` names.
///
/// The cast starts, as [`cast_rod`] says, where the session is idle, the
/// catalogues are well formed and the rod reaches a species that bites at
/// any rarity. Else nothing changes and the answer is `false`.
pub fn request_cast(
    data: &mut CatchData,
    now: i64,
    user_file: &UserValues,
    rod_data: &RodData,
    fish_data: &FishData,
) -> (started: bool)
    ensures
        started == {
            &&& !old(data).cast
            &&& rod_data.well_formed()
            &&& fish_data.well_formed()
            &&& fish_data.spec_always_bites(user_file.spec_get_rod(rod_data).spec_depth())
        },
        !started ==> final(data)@ == old(data)@,
        started ==> old(data)@.spec_casts_to(
            final(data)@,
            now,
            user_file.spec_get_rod(rod_data),
            fish_data,
        ),
{
    if data.cast || rod_data.rods.len() == 0 || !fish_data.is_well_formed() {
        return false;
    }
    let rod = user_file.get_rod(rod_data);
    if !fish_data.always_bites(rod.get_depth()) {
        return false;
    }
    cast_rod(data, now, &rod, fish_data)
}

} // verus!

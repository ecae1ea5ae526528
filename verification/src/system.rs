//! The per-tick pipeline: classification, then every controller's update.
//!
//! The system owns the explicit cursor into the growing contact event
//! log, the stand-in for a host scheduler's per-system reader state: each
//! tick consumes exactly the events appended since the last tick.

use vstd::prelude::*;

use crate::contact::{
    classified_entry, classify, config_valid, contact_valid, grounded_this_tick, Contact,
    WorldConfig,
};
use crate::controller::{
    camera_error, cmds_view, controller_after, controller_gcmds, update_controller,
    CharacterController, Command, ControlError, ControllerEntry, GCmd, InputState,
};
use crate::math::{quat_bounded, ONE};

verus! {

/// Everything one tick hands back to the caller: the mutation requests
/// for the physics and camera collaborators, in order, and the
/// recoverable faults met on the way.
pub struct TickOutcome {
    pub commands: Vec<Command>,
    pub errors: Vec<ControlError>,
}

/// The entry can be processed without overflow: the body's orientation is
/// a unit quaternion, so its components stay in the unit box.
pub open spec fn entry_valid(e: ControllerEntry) -> bool {
    quat_bounded(e.body_state.rotation@, ONE as int)
}

/// The entry after a full tick: the grounded flag recomputed from the
/// tick's contacts, consumed by the update, and reset; the jump latch
/// advanced; everything else untouched.
pub open spec fn entry_after_tick(
    cfg: WorldConfig,
    contacts: Seq<Contact>,
    start: int,
    e: ControllerEntry,
    input: InputState,
) -> ControllerEntry {
    let grounded = grounded_this_tick(cfg, contacts, start, e);
    ControllerEntry {
        controller: controller_after(
            CharacterController { on_ground: grounded, ..e.controller },
            input,
        ),
        ..e
    }
}

/// The commands one entry's update emits within a tick, as a function of
/// the entry's state when the tick began.
pub open spec fn entry_gcmds(
    cfg: WorldConfig,
    contacts: Seq<Contact>,
    start: int,
    e: ControllerEntry,
    input: InputState,
    cameras: Seq<u64>,
) -> Seq<GCmd> {
    let grounded = grounded_this_tick(cfg, contacts, start, e);
    controller_gcmds(
        CharacterController { on_ground: grounded, ..e.controller },
        input,
        e.body,
        e.body_state,
        e.heading,
        cameras.contains(e.controller.camera),
    )
}

/// The commands of the first `j` entries' updates, concatenated in entry
/// order.
pub open spec fn tick_gcmds_upto(
    cfg: WorldConfig,
    contacts: Seq<Contact>,
    start: int,
    entries: Seq<ControllerEntry>,
    input: InputState,
    cameras: Seq<u64>,
    j: int,
) -> Seq<GCmd>
    decreases j,
{
    if j <= 0 {
        Seq::empty()
    } else {
        tick_gcmds_upto(cfg, contacts, start, entries, input, cameras, j - 1) + entry_gcmds(
            cfg,
            contacts,
            start,
            entries[j - 1],
            input,
            cameras,
        )
    }
}

/// The faults of the first `j` entries' updates, in entry order.
pub open spec fn tick_errors_upto(
    entries: Seq<ControllerEntry>,
    cameras: Seq<u64>,
    j: int,
) -> Seq<ControlError>
    decreases j,
{
    if j <= 0 {
        Seq::empty()
    } else {
        tick_errors_upto(entries, cameras, j - 1) + match camera_error(
            entries[j - 1].controller,
            entries[j - 1].body,
            cameras.contains(entries[j - 1].controller.camera),
        ) {
            Some(e) => seq![e],
            None => Seq::empty(),
        }
    }
}

/// The character controller system: the two-phase per-tick pipeline and
/// its reader cursor into the contact event log.
pub struct CharacterControllerSystem {
    /// How many events of the log earlier ticks have consumed.
    pub cursor: usize,
}

impl Default for CharacterControllerSystem {
    /// A fresh system that has consumed no events.
    fn default() -> (s: CharacterControllerSystem)
        ensures
            s.cursor == 0,
    {
        CharacterControllerSystem { cursor: 0 }
    }
}

impl CharacterControllerSystem {
    /// Runs one simulation tick.
    ///
    /// First the contact classifier marks as grounded every controller
    /// whose body a fresh contact (one appended to the log since the last
    /// tick) touches on a floor-like side; then every controller's update
    /// runs in entry order. Afterwards every grounded flag is false
    /// again: a controller with no floor contact for one tick is
    /// airborne, with no stickiness. The returned commands are the tick's
    /// only effect on the outside world; a dangling camera handle is
    /// reported per controller and skips only that camera's sync.
    pub fn system(
        &mut self,
        cfg: &WorldConfig,
        input: &InputState,
        contacts: &Vec<Contact>,
        entries: &mut Vec<ControllerEntry>,
        cameras: &Vec<u64>,
    ) -> (out: TickOutcome)
        requires
            config_valid(*cfg),
            old(self).cursor <= contacts@.len(),
            forall|i: int| 0 <= i < contacts@.len() ==> contact_valid(#[trigger] contacts@[i]),
            forall|j: int| 0 <= j < old(entries)@.len() ==> entry_valid(#[trigger] old(entries)@[j]),
        ensures
            final(self).cursor == contacts@.len(),
            final(entries)@.len() == old(entries)@.len(),
            forall|j: int|
                0 <= j < old(entries)@.len() ==> #[trigger] final(entries)@[j] == entry_after_tick(
                    *cfg,
                    contacts@,
                    old(self).cursor as int,
                    old(entries)@[j],
                    *input,
                ),
            forall|j: int|
                0 <= j < old(entries)@.len()
                    ==> #[trigger] final(entries)@[j].controller.on_ground == false,
            cmds_view(out.commands@) == tick_gcmds_upto(
                *cfg,
                contacts@,
                old(self).cursor as int,
                old(entries)@,
                *input,
                cameras@,
                old(entries)@.len() as int,
            ),
            out.errors@ == tick_errors_upto(
                old(entries)@,
                cameras@,
                old(entries)@.len() as int,
            ),
    {
        let ghost entries0 = entries@;
        let ghost start = self.cursor as int;
        classify(contacts, self.cursor, entries, cfg);
        self.cursor = contacts.len();
        let mut out_entries: Vec<ControllerEntry> = Vec::new();
        let mut commands: Vec<Command> = Vec::new();
        let mut errors: Vec<ControlError> = Vec::new();
        let n = entries.len();
        for j in 0..n
            invariant
                n == entries@.len(),
                entries0.len() == n,
                config_valid(*cfg),
                forall|k: int|
                    0 <= k < n ==> classified_entry(
                        *cfg,
                        contacts@,
                        start,
                        entries0[k],
                        #[trigger] entries@[k],
                    ),
                forall|k: int| 0 <= k < n ==> entry_valid(#[trigger] entries0[k]),
                out_entries@.len() == j,
                forall|k: int|
                    0 <= k < j ==> #[trigger] out_entries@[k] == entry_after_tick(
                        *cfg,
                        contacts@,
                        start,
                        entries0[k],
                        *input,
                    ),
                cmds_view(commands@) == tick_gcmds_upto(
                    *cfg,
                    contacts@,
                    start,
                    entries0,
                    *input,
                    cameras@,
                    j as int,
                ),
                errors@ == tick_errors_upto(entries0, cameras@, j as int),
        {
            let mut e = entries[j];
            assert(e == entries@[j as int]);
            assert(e.body_state == entries0[j as int].body_state);
            let (mut cs, err) = update_controller(
                &mut e.controller,
                input,
                e.body,
                &e.body_state,
                e.heading,
                cameras,
            );
            let ghost csv = cs@;
            let ghost commands0 = commands@;
            commands.append(&mut cs);
            proof {
                assert(cmds_view(commands@) =~= cmds_view(commands0) + cmds_view(csv));
            }
            if let Some(er) = err {
                errors.push(er);
            }
            proof {
                assert(entries@[j as int].controller == CharacterController {
                    on_ground: grounded_this_tick(*cfg, contacts@, start, entries0[j as int]),
                    ..entries0[j as int].controller
                });
                assert(cmds_view(csv) == entry_gcmds(
                    *cfg,
                    contacts@,
                    start,
                    entries0[j as int],
                    *input,
                    cameras@,
                ));
            }
            out_entries.push(e);
        }
        *entries = out_entries;
        TickOutcome { commands, errors }
    }
}

} // verus!


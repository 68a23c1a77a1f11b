//! The scene sequencer: a fixed row of scenes, shown one at a time.
//!
//! A `SceneManager` knows how many scenes there are and which one is shown.
//! Each time a scene is shown it gets a `SceneHandler`, which holds the
//! scene's private clock and its one chance to report that it is done.

use vstd::prelude::*;

verus! {

/// Which scene of the row is shown.
#[derive(Clone, Copy, Debug)]
pub struct SceneManager {
    /// The index of the scene that is shown.
    pub active_scene: usize,
    /// The number of scenes in the row.
    pub scene_count: usize,
}

/// The state of one showing of one scene.
#[derive(Clone, Copy, Debug)]
pub struct SceneHandler {
    /// The index of the scene that this showing belongs to.
    pub id: usize,
    /// The clock reading at which the scene was shown.
    pub start: u64,
    /// Whether the scene has reported already that it is done.
    pub changed_scene: bool,
    /// The scene's own time at the moment of its first report.
    pub stop_time: Option<u64>,
}

impl SceneManager {
    /// The shown scene is one of the row.
    pub open spec fn wf(self) -> bool {
        self.active_scene < self.scene_count
    }

    /// The index of the scene that nothing follows.
    pub open spec fn last_scene(self) -> int {
        self.scene_count - 1
    }

    /// The manager after the showing `handler` reports that its scene is
    /// done.
    ///
    /// The row moves on by one scene when this is the showing's first
    /// report, the showing's scene is still the one shown, and that scene
    /// is not the last. Otherwise the report changes nothing.
    pub open spec fn advanced(self, handler: SceneHandler) -> SceneManager {
        if !handler.changed_scene && self.active_scene == handler.id && handler.id
            != self.last_scene() {
            SceneManager {
                active_scene: (handler.id + 1) as usize,
                scene_count: self.scene_count,
            }
        } else {
            self
        }
    }

    /// A row of `scene_count` scenes that shows its first scene. A row needs
    /// at least one scene: for an empty row there is no manager.
    pub fn new(scene_count: usize) -> (manager: Option<SceneManager>)
        ensures
            scene_count == 0 ==> manager is None,
            scene_count > 0 ==> manager == Some(
                SceneManager { active_scene: 0, scene_count: scene_count },
            ),
            manager matches Some(m) ==> m.wf(),
    {
        if scene_count == 0 {
            None
        } else {
            Some(SceneManager { active_scene: 0, scene_count })
        }
    }

    /// The index of the scene that is shown.
    pub fn active(&self) -> (index: usize)
        ensures
            index == self.active_scene,
    {
        self.active_scene
    }
}

impl SceneHandler {
    /// The scene's own time at clock reading `now`: the time since the
    /// scene was shown, frozen from the scene's first report on. A reading
    /// from before the scene was shown counts as zero.
    pub open spec fn time_at(self, now: u64) -> u64 {
        match self.stop_time {
            Some(t) => t,
            None => if self.start <= now {
                (now - self.start) as u64
            } else {
                0
            },
        }
    }

    /// The showing after its scene reports, at `now`, that it is done.
    /// Only the first report is recorded; it freezes the scene's time.
    pub open spec fn completed(self, now: u64) -> SceneHandler {
        if self.changed_scene {
            self
        } else {
            SceneHandler {
                id: self.id,
                start: self.start,
                changed_scene: true,
                stop_time: Some(self.time_at(now)),
            }
        }
    }

    /// Starts a showing of the scene that `manager` shows, at `now`.
    pub fn activate(manager: &SceneManager, now: u64) -> (handler: SceneHandler)
        ensures
            handler == (SceneHandler {
                id: manager.active_scene,
                start: now,
                changed_scene: false,
                stop_time: None,
            }),
            handler.time_at(now) == 0,
    {
        SceneHandler { id: manager.active_scene, start: now, changed_scene: false, stop_time: None }
    }

    /// The scene's own time at clock reading `now`.
    pub fn time(&self, now: u64) -> (t: u64)
        ensures
            t == self.time_at(now),
    {
        match self.stop_time {
            Some(t) => t,
            None => if self.start <= now {
                now - self.start
            } else {
                0
            },
        }
    }

    /// The scene reports, at `now`, that it is done.
    ///
    /// The first report freezes the scene's time and moves `manager` on
    /// where `SceneManager::advanced` says so. Every later report is
    /// without effect.
    pub fn next_scene(&mut self, manager: &mut SceneManager, now: u64)
        requires
            old(manager).wf(),
        ensures
            *final(self) == old(self).completed(now),
            *final(manager) == old(manager).advanced(*old(self)),
            final(manager).wf(),
            final(self).changed_scene,
    {
        if !self.changed_scene {
            self.changed_scene = true;
            self.stop_time = Some(self.time(now));
            if manager.active_scene == self.id && self.id != manager.scene_count - 1 {
                manager.active_scene = self.id + 1;
            }
        }
    }
}

/// The first report of the shown scene moves the row on by one scene,
/// unless that scene is the last.
pub proof fn law_first_report_moves_on(manager: SceneManager, handler: SceneHandler)
    requires
        manager.wf(),
        handler.id == manager.active_scene,
        !handler.changed_scene,
        handler.id != manager.last_scene(),
    ensures
        manager.advanced(handler).active_scene == handler.id + 1,
        manager.advanced(handler).scene_count == manager.scene_count,
        manager.advanced(handler).wf(),
{
}

/// A scene gets one report. After its first report, at `first`, a report of
/// the same showing leaves the row and the showing as they are.
pub proof fn law_repeated_report_is_ignored(
    manager: SceneManager,
    handler: SceneHandler,
    first: u64,
    second: u64,
)
    ensures
        manager.advanced(handler).advanced(handler.completed(first)) == manager.advanced(handler),
        handler.completed(first).completed(second) == handler.completed(first),
{
}

/// A report from a showing of a scene that is no longer shown does not move
/// the row.
pub proof fn law_stale_report_is_ignored(manager: SceneManager, handler: SceneHandler)
    requires
        handler.id != manager.active_scene,
    ensures
        manager.advanced(handler) == manager,
{
}

/// Nothing follows the last scene: its report does not move the row.
pub proof fn law_last_scene_stays(manager: SceneManager, handler: SceneHandler)
    requires
        manager.wf(),
        handler.id == manager.last_scene(),
    ensures
        manager.advanced(handler) == manager,
{
}

/// The row never leaves its scenes: whatever reports, the shown scene stays
/// one of the row, and it never moves back.
pub proof fn law_row_stays_in_range(manager: SceneManager, handler: SceneHandler)
    requires
        manager.wf(),
    ensures
        manager.advanced(handler).wf(),
        manager.advanced(handler).scene_count == manager.scene_count,
        manager.active_scene <= manager.advanced(handler).active_scene <= manager.active_scene
            + 1,
{
}

/// From its first report on, a scene's own time stands still at what it
/// was at that report.
pub proof fn law_reported_scene_time_is_frozen(handler: SceneHandler, at: u64, later: u64)
    requires
        !handler.changed_scene,
    ensures
        handler.completed(at).time_at(later) == handler.time_at(at),
{
}

} // verus!

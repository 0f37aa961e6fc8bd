//! The season and storage lines: counted in the background, cached, and
//! retired whenever an action changes what they describe.

use vstd::prelude::*;

verus! {

/// The cached season/storage lines and the count in flight.
pub struct SeasonInfo {
    /// The lines, once counted.
    pub lines: Option<Vec<String>>,
    /// A count is running.
    pub loading: bool,
    /// Bumped on every invalidation; a count carrying an older number
    /// describes a store that no longer exists.
    pub generation: u64,
}

impl SeasonInfo {
    /// Nothing counted yet.
    pub fn new() -> (info: Self)
        ensures
            info.lines is None,
            !info.loading,
            info.generation == 0,
    {
        SeasonInfo { lines: None, loading: false, generation: 0 }
    }

    /// Whether to start a count: only when nothing is cached and nothing is
    /// running. Returns the round the count belongs to.
    pub fn ensure(&mut self) -> (round: Option<u64>)
        ensures
            (old(self).lines is Some || old(self).loading) ==> round is None && *final(self) == *old(self),
            !(old(self).lines is Some || old(self).loading) ==> {
                &&& round == Some(old(self).generation)
                &&& final(self).loading
                &&& final(self).lines is None
                &&& final(self).generation == old(self).generation
            },
    {
        if self.lines.is_some() || self.loading {
            return None;
        }
        self.loading = true;
        Some(self.generation)
    }

    /// Forgets the cached lines and retires any count still in flight, so
    /// the next draw shows what the action just did.
    pub fn invalidate(&mut self)
        ensures
            final(self).lines is None,
            final(self).loading == old(self).loading,
            final(self).generation == old(self).generation.wrapping_add(1),
    {
        self.lines = None;
        self.generation = self.generation.wrapping_add(1);
    }

    /// A count finished. It stops the loading mark either way, and its lines
    /// are kept only if its round is still current. Returns whether they
    /// were kept.
    pub fn finish(&mut self, round: u64, lines: Vec<String>) -> (kept: bool)
        ensures
            kept == (round == old(self).generation),
            !final(self).loading,
            final(self).generation == old(self).generation,
            kept ==> final(self).lines == Some(lines),
            !kept ==> final(self).lines == old(self).lines,
    {
        self.loading = false;
        if round != self.generation {
            return false;
        }
        self.lines = Some(lines);
        true
    }
}

/// A count started before an invalidation never lands: its round is no
/// longer the current one.
pub proof fn law_an_invalidated_count_never_lands(round: u64, generation: u64)
    requires
        round == generation,
    ensures
        round != generation.wrapping_add(1),
{
}

/// What a click on the purge button does to the arming: it goes ahead when
/// the button was armed, and the click flips the arming.
pub open spec fn purge_click(armed: bool) -> (bool, bool) {
    (armed, !armed)
}

/// The two-click guard on deleting an old season's raw rows.
pub struct PurgeGuard {
    pub armed: bool,
}

impl PurgeGuard {
    /// Not armed.
    pub fn new() -> (guard: Self)
        ensures
            !guard.armed,
    {
        PurgeGuard { armed: false }
    }

    /// A click on the button: the first arms, the second deletes. Returns
    /// whether to delete now.
    pub fn click(&mut self) -> (go: bool)
        ensures
            (go, final(self).armed) == purge_click(old(self).armed),
    {
        if !self.armed {
            self.armed = true;
            return false;
        }
        self.armed = false;
        true
    }

    /// Any other season action disarms the button.
    pub fn disarm(&mut self)
        ensures
            !final(self).armed,
    {
        self.armed = false;
    }
}

/// First click arms, second click deletes: from a disarmed button the first
/// click deletes nothing and the second one does, leaving it disarmed.
pub proof fn law_purge_takes_two_clicks()
    ensures
        !purge_click(false).0,
        purge_click(purge_click(false).1).0,
        !purge_click(purge_click(false).1).1,
{
}

} // verus!

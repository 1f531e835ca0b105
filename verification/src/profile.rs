use vstd::prelude::*;
use vstd::string::*;

verus! {

/// A player and what they have achieved so far.
///
/// Experience is a floating-point quantity; the library carries it as the bit
/// pattern of that `f64` (`f64::to_bits`), so a fresh profile holds `0`, the
/// pattern of `0.0`.
#[derive(Debug, Clone)]
pub struct PlayerProfile {
    pub name: String,
    pub level: u32,
    pub experience_bits: u64,
    pub tutorials_completed: Vec<String>,
    pub badges_earned: Vec<String>,
    pub pets: Vec<String>,
    pub friends: Vec<String>,
    pub total_builds: u32,
    pub total_ticks: u64,
}

impl PlayerProfile {
    /// `self` is the profile of a new player called `name`: level 1, no
    /// experience, nothing completed, earned, owned or befriended, no builds
    /// and no ticks.
    pub open spec fn is_fresh(self, name: Seq<char>) -> bool {
        &&& self.name@ == name
        &&& self.level == 1
        &&& self.experience_bits == 0
        &&& self.tutorials_completed@.len() == 0
        &&& self.badges_earned@.len() == 0
        &&& self.pets@.len() == 0
        &&& self.friends@.len() == 0
        &&& self.total_builds == 0
        &&& self.total_ticks == 0
    }

    pub fn new(name: &str) -> (p: Self)
        ensures
            p.is_fresh(name@),
    {
        PlayerProfile {
            name: String::from_str(name),
            level: 1,
            experience_bits: 0,
            tutorials_completed: Vec::new(),
            badges_earned: Vec::new(),
            pets: Vec::new(),
            friends: Vec::new(),
            total_builds: 0,
            total_ticks: 0,
        }
    }

    /// The experience needed to leave the current level: 100 per level.
    pub fn level_up_threshold(&self) -> (t: u64)
        ensures
            t == self.level * 100,
    {
        self.level as u64 * 100
    }
}

} // verus!

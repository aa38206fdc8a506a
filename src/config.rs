use vstd::prelude::*;

verus! {

/// Largest value a key bound may hold: bounds name the digit keys 0 through 9.
pub const MAX_DIGIT: u8 = 9;

/// The range of digit keys that automation draws from, as stored on disk.
#[derive(Clone, Copy, Debug, PartialEq, Eq, Structural)]
pub struct Config {
    pub min_key: u8,
    pub max_key: u8,
}

/// The range used when nothing usable is stored: the keys 1 through 9.
pub open spec fn default_config() -> Config {
    Config { min_key: 1, max_key: 9 }
}

/// What starting up makes of a decoded file (`None` when it was missing or
/// malformed): the configuration to use, and whether it must be written back.
pub open spec fn restored(decoded: Option<Config>) -> (Config, bool) {
    match decoded {
        Some(c) => if c.valid() {
            (c, false)
        } else {
            (default_config(), true)
        },
        None => (default_config(), true),
    }
}

impl Config {
    /// Both bounds name a digit key.
    pub open spec fn valid(self) -> bool {
        self.min_key <= MAX_DIGIT && self.max_key <= MAX_DIGIT
    }

    /// The bounds are in order, so the range holds at least one key.
    pub open spec fn ordered(self) -> bool {
        self.min_key <= self.max_key
    }

    /// The configuration used when nothing usable is stored.
    pub fn default_range() -> (r: Config)
        ensures
            r == default_config(),
            r.valid(),
            r.ordered(),
    {
        Config { min_key: 1, max_key: 9 }
    }

    pub fn is_valid(&self) -> (r: bool)
        ensures
            r == self.valid(),
    {
        self.min_key <= MAX_DIGIT && self.max_key <= MAX_DIGIT
    }

    pub fn is_ordered(&self) -> (r: bool)
        ensures
            r == self.ordered(),
    {
        self.min_key <= self.max_key
    }

    /// Decides the configuration to start from. `decoded` is what reading and
    /// decoding the stored file gave, or `None` when the file is missing or
    /// malformed. A stored range whose bounds are not digits counts as
    /// malformed. The second component says whether the returned configuration
    /// has to be persisted, which is the case exactly when the default was
    /// substituted.
    pub fn restore(decoded: Option<Config>) -> (r: (Config, bool))
        ensures
            r == restored(decoded),
            r.0.valid(),
    {
        match decoded {
            Some(c) => {
                if c.is_valid() {
                    (c, false)
                } else {
                    (Config::default_range(), true)
                }
            },
            None => (Config::default_range(), true),
        }
    }
}

/// A stored range of digit keys comes back exactly as it was saved, and
/// nothing is written back.
pub proof fn lemma_saved_config_restored(c: Config)
    requires
        c.valid(),
    ensures
        restored(Some(c)) == (c, false),
{
}

/// Without a usable file the keys 1 through 9 are used, and that default is
/// persisted.
pub proof fn lemma_missing_file_gives_default()
    ensures
        restored(None) == (Config { min_key: 1, max_key: 9 }, true),
{
}

} // verus!

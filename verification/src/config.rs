//! The settings: the refresh rate, the precision shown and the four keys.

use vstd::prelude::*;

verus! {

/// A key of the keyboard.
#[derive(Clone, Copy, Debug, PartialEq, Eq, Structural)]
pub enum Key {
    Backspace,
    Enter,
    Left,
    Right,
    Up,
    Down,
    Home,
    End,
    PageUp,
    PageDown,
    Tab,
    BackTab,
    Delete,
    Insert,
    /// A function key, by its number.
    F(u8),
    /// A key that types a character.
    Char(char),
    Null,
    Esc,
}

/// The key bound to each of the four commands.
#[derive(Clone, Copy, Debug, PartialEq, Eq, Structural)]
pub struct Keys {
    pub split: Key,
    pub stopstart: Key,
    pub reset: Key,
    pub quit: Key,
}

/// Why settings are refused.
#[derive(Clone, Copy, Debug, PartialEq, Eq, Structural)]
pub enum ConfigError {
    /// The refresh rate is zero: no tick period can be made of it.
    InvalidConfiguration,
}

/// The settings as they were loaded.
#[derive(Clone, Copy, Debug, PartialEq, Eq, Structural)]
pub struct Config {
    ups: u64,
    show_millis: bool,
    keys: Keys,
}

/// Milliseconds in one second.
pub const MILLIS_PER_SEC: u64 = 1000;

/// The refresh rate where none is set: 30 updates per second.
pub fn default_ups() -> (ups: u64)
    ensures
        ups == 30,
{
    30
}

/// Whether milliseconds are shown where nothing is set: they are.
pub fn default_show_millis() -> (show: bool)
    ensures
        show,
{
    true
}

/// The keys where none are set: the space bar splits, `s` starts and stops,
/// `r` resets and escape quits.
pub open spec fn default_keys_spec() -> Keys {
    Keys { split: Key::Char(' '), stopstart: Key::Char('s'), reset: Key::Char('r'), quit: Key::Esc }
}

/// The keys where none are set.
pub fn default_keys() -> (keys: Keys)
    ensures
        keys == default_keys_spec(),
{
    Keys { split: Key::Char(' '), stopstart: Key::Char('s'), reset: Key::Char('r'), quit: Key::Esc }
}

/// The tick period in milliseconds for a refresh rate of `ups` updates per
/// second: the thousandth parts of a second that one update lasts, and one
/// millisecond where the rate is above a thousand.
pub open spec fn period_millis(ups: nat) -> nat
    recommends
        ups >= 1,
{
    if ups > MILLIS_PER_SEC as nat {
        1
    } else {
        MILLIS_PER_SEC as nat / ups
    }
}

impl Default for Config {
    fn default() -> (c: Config)
        ensures
            c.ups() == 30,
            c.show_millis(),
            c.keys() == default_keys_spec(),
    {
        Config::new()
    }
}

impl Config {
    /// The refresh rate, in updates per second.
    pub closed spec fn ups(self) -> u64 {
        self.ups
    }

    /// Whether milliseconds are shown.
    pub closed spec fn show_millis(self) -> bool {
        self.show_millis
    }

    /// The four keys.
    pub closed spec fn keys(self) -> Keys {
        self.keys
    }

    /// Whether the settings can be run with: the refresh rate is at least one.
    pub open spec fn valid(self) -> bool {
        self.ups() >= 1
    }

    /// The settings where nothing is set.
    pub fn new() -> (c: Config)
        ensures
            c.ups() == 30,
            c.show_millis(),
            c.keys() == default_keys_spec(),
            c.valid(),
    {
        Config { ups: default_ups(), show_millis: default_show_millis(), keys: default_keys() }
    }

    /// Settings of the given parts, as they are; `validate` tells whether they can be run with.
    pub fn from_parts(ups: u64, show_millis: bool, keys: Keys) -> (c: Config)
        ensures
            c.ups() == ups,
            c.show_millis() == show_millis,
            c.keys() == keys,
    {
        Config { ups, show_millis, keys }
    }

    /// Refuses a refresh rate of zero, and nothing else.
    pub fn validate(self) -> (r: Result<(), ConfigError>)
        ensures
            self.valid() <==> r is Ok,
            !self.valid() <==> r == Err::<(), ConfigError>(ConfigError::InvalidConfiguration),
    {
        if self.ups == 0 {
            Err(ConfigError::InvalidConfiguration)
        } else {
            Ok(())
        }
    }

    /// The tick period in milliseconds, never zero; a refresh rate of zero is refused.
    pub fn tick_period_millis(self) -> (r: Result<u64, ConfigError>)
        ensures
            self.valid() <==> r is Ok,
            !self.valid() <==> r == Err::<u64, ConfigError>(ConfigError::InvalidConfiguration),
            r is Ok ==> r->Ok_0 == period_millis(self.ups() as nat) && r->Ok_0 >= 1,
    {
        if self.ups == 0 {
            Err(ConfigError::InvalidConfiguration)
        } else if self.ups > MILLIS_PER_SEC {
            Ok(1)
        } else {
            let ups: u64 = self.ups;
            assert(1000int / (ups as int) >= 1) by (nonlinear_arith)
                requires
                    1 <= ups <= 1000,
            ;
            Ok(MILLIS_PER_SEC / ups)
        }
    }

    /// The refresh rate, in updates per second.
    pub fn get_ups(self) -> (ups: u64)
        ensures
            ups == self.ups(),
    {
        self.ups
    }

    /// Whether milliseconds are shown.
    pub fn get_show_millis(self) -> (show: bool)
        ensures
            show == self.show_millis(),
    {
        self.show_millis
    }

    /// The key that records a split.
    pub fn get_key_split(self) -> (key: Key)
        ensures
            key == self.keys().split,
    {
        self.keys.split
    }

    /// The key that starts and stops the stopwatch.
    pub fn get_key_stopstart(self) -> (key: Key)
        ensures
            key == self.keys().stopstart,
    {
        self.keys.stopstart
    }

    /// The key that resets the stopwatch.
    pub fn get_key_reset(self) -> (key: Key)
        ensures
            key == self.keys().reset,
    {
        self.keys.reset
    }

    /// The key that quits.
    pub fn get_key_quit(self) -> (key: Key)
        ensures
            key == self.keys().quit,
    {
        self.keys.quit
    }
}

} // verus!

//! The configuration that the hosted application hands to the native side.

use crate::util::wide::{parse_hstr_wide, HostString};
use vstd::prelude::*;

verus! {

/// The configuration as the hosted application returns it. The title is a
/// string of the runtime's: the native side owns it from here on and must
/// release it through the runtime's function for freeing strings.
#[derive(Debug, PartialEq, Eq)]
pub struct RawInitConfig {
    pub window_title: HostString,
    pub window_width: i32,
    pub window_height: i32,
    pub vsync: bool,
    pub windowed: bool,
}

/// The configuration with its title as text of the native side.
#[derive(Debug, PartialEq, Eq)]
pub struct InitConfig {
    pub window_title: String,
    pub window_width: i32,
    pub window_height: i32,
    pub vsync: bool,
    pub windowed: bool,
}

/// Settings of the running application; none so far.
#[derive(Debug, Default, PartialEq, Eq)]
pub struct Config {
}

/// The title of a window whose configuration names none.
pub open spec fn default_window_title() -> Seq<char> {
    "NT"@
}

impl RawInitConfig {
    /// The title that the configuration asks for: the default where the
    /// title is null, else the text of the runtime's string.
    pub open spec fn title(&self) -> Seq<char> {
        if self.window_title.spec_is_null() {
            default_window_title()
        } else {
            self.window_title.text()
        }
    }

    /// The address of the runtime's string that must be released once the
    /// title is read: that of the title, unless it is null.
    pub open spec fn owed_release(&self) -> Option<usize> {
        if self.window_title.spec_is_null() {
            None
        } else {
            Some(self.window_title.address)
        }
    }

    /// Turns the raw configuration into one of the native side's: the title
    /// is decoded, or defaulted where it is null, and the other fields are
    /// kept. With it comes the address of the title to release through the
    /// runtime's function for freeing strings, exactly once; none for a null
    /// title.
    pub fn cook(self) -> (cooked: (InitConfig, Option<usize>))
        ensures
            cooked.0.window_title@ == self.title(),
            cooked.0.window_width == self.window_width,
            cooked.0.window_height == self.window_height,
            cooked.0.vsync == self.vsync,
            cooked.0.windowed == self.windowed,
            cooked.1 == self.owed_release(),
    {
        let (window_title, release) = match parse_hstr_wide(&self.window_title) {
            Some(title) => (title, Some(self.window_title.address)),
            None => ("NT".to_owned(), None),
        };
        (
            InitConfig {
                window_title,
                window_width: self.window_width,
                window_height: self.window_height,
                vsync: self.vsync,
                windowed: self.windowed,
            },
            release,
        )
    }
}

} // verus!

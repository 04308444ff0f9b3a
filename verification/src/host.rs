//! How the program whose accounts are managed is called.

use vstd::prelude::*;

use crate::text;

verus! {

/// The names of the managed program.
pub struct Host {
    /// As it calls itself.
    pub product: String,
    /// Its command, which also names its files.
    pub command: String,
    /// The models of its own house.
    pub family: String,
    /// What its plans are called by.
    pub brand: String,
    /// Where its service is reached.
    pub site: String,
}

/// What a [`Host`] holds.
pub struct HostView {
    pub product: Seq<char>,
    pub command: Seq<char>,
    pub family: Seq<char>,
    pub brand: Seq<char>,
    pub site: Seq<char>,
}

impl View for Host {
    type V = HostView;

    open spec fn view(&self) -> HostView {
        HostView {
            product: self.product@,
            command: self.command@,
            family: self.family@,
            brand: self.brand@,
            site: self.site@,
        }
    }
}

impl HostView {
    /// Its directory.
    pub open spec fn home(self) -> Seq<char> {
        "~/."@ + self.command
    }

    /// Its global configuration.
    pub open spec fn config_file(self) -> Seq<char> {
        "~/."@ + self.command + ".json"@
    }

    /// Its settings.
    pub open spec fn settings_file(self) -> Seq<char> {
        "~/."@ + self.command + "/settings.json"@
    }
}

impl Host {
    /// Its directory.
    pub fn home(&self) -> (r: String)
        ensures
            r@ == self@.home(),
    {
        text::joined("~/.", self.command.as_str())
    }

    /// Its global configuration.
    pub fn config_file(&self) -> (r: String)
        ensures
            r@ == self@.config_file(),
    {
        text::joined3("~/.", self.command.as_str(), ".json")
    }

    /// Its settings.
    pub fn settings_file(&self) -> (r: String)
        ensures
            r@ == self@.settings_file(),
    {
        text::joined3("~/.", self.command.as_str(), "/settings.json")
    }
}

} // verus!

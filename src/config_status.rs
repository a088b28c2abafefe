//! Which preset the user has picked, and the name typed for a new one.
use crate::config::{Config, ConfigItemView};
use crate::text::{blank, is_blank};
use vstd::prelude::*;

verus! {

#[derive(Debug, Clone)]
pub struct ConfigStatus {
    /// Name of the preset picked in the list.
    pub chosen: String,
    /// Name typed for saving the current settings as a new preset.
    pub input: String,
}

impl Default for ConfigStatus {
    fn default() -> (r: ConfigStatus)
        ensures
            r.chosen@ == Seq::<char>::empty(),
            r.input@ == Seq::<char>::empty(),
    {
        ConfigStatus { chosen: String::new(), input: String::new() }
    }
}

/// Whether `chosen` names a saved preset: it is not blank and a preset is
/// saved under exactly that name. The preset actions are offered only then.
pub open spec fn chosen_valid(chosen: Seq<char>, saved: Map<Seq<char>, ConfigItemView>) -> bool {
    !blank(chosen) && saved.contains_key(chosen)
}

pub fn select_config_valid(chosen: &String, config: &Config) -> (r: bool)
    requires
        config.wf(),
    ensures
        r == chosen_valid(chosen@, config@.saved),
{
    if is_blank(chosen.as_str()) {
        return false;
    }
    config.saved.contains_key(chosen)
}

} // verus!

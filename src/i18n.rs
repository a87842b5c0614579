//! The languages offered in the settings.

use vstd::prelude::*;

verus! {

/// The offered languages as (locale code, name in that language); the first,
/// with an empty code, stands for the system default.
pub fn get_language_display_names() -> (r: Vec<(&'static str, &'static str)>)
    ensures
        r@.len() == 8,
        r@[0].0@ == ""@,
        r@[1].0@ == "en"@,
        r@[2].0@ == "zh-CN"@,
        r@[3].0@ == "zh-TW"@,
        r@[4].0@ == "es"@,
        r@[5].0@ == "de"@,
        r@[6].0@ == "fr"@,
        r@[7].0@ == "ja"@,
{
    let mut r: Vec<(&'static str, &'static str)> = Vec::new();
    r.push(("", "System Default"));
    r.push(("en", "English"));
    r.push(("zh-CN", "简体中文"));
    r.push(("zh-TW", "繁體中文"));
    r.push(("es", "Español"));
    r.push(("de", "Deutsch"));
    r.push(("fr", "Français"));
    r.push(("ja", "日本語"));
    r
}

} // verus!

use vstd::prelude::*;

use crate::paths::spec_join;
use crate::text::to_char_vec;
use vstd::string::StringExecFns;

verus! {

/// The record that survives across batches: the sequence number to offer
/// next time and the prefix last used.
pub struct Config {
    pub last_number: u32,
    pub last_prefix: String,
}

/// The prefix offered before any batch ran.
pub open spec fn spec_default_prefix() -> Seq<char> {
    seq!['i', 'm', 'g']
}

/// The defaults used on first run or when the stored record cannot be
/// read: number `1`, prefix `"img"`.
pub fn default_config() -> (c: Config)
    ensures
        c.last_number == 1,
        c.last_prefix@ == spec_default_prefix(),
{
    proof {
        reveal_strlit("img");
        assert("img"@ =~= spec_default_prefix());
    }
    Config { last_number: 1, last_prefix: String::from_str("img") }
}

/// Resolve what a load attempt yielded: a parsed record is used as it is;
/// on any failure the defaults take its place, and the second component
/// says that the defaults should be persisted.
pub fn config_or_default(loaded: Option<Config>) -> (r: (Config, bool))
    ensures
        match loaded {
            Some(c) => r.0 == c && r.1 == false,
            None => r.0.last_number == 1 && r.0.last_prefix@ == spec_default_prefix() && r.1
                == true,
        },
{
    match loaded {
        Some(c) => (c, false),
        None => (default_config(), true),
    }
}

/// The fixed per-user directory that holds the record, under the home
/// directory.
pub open spec fn spec_config_dir(home: Seq<char>) -> Seq<char> {
    spec_join(home, ".image_rename_tool"@)
}

/// The fixed per-user path of the record itself.
pub open spec fn spec_config_file(home: Seq<char>) -> Seq<char> {
    spec_join(spec_config_dir(home), "config.json"@)
}

/// The configuration directory under a given home directory.
pub fn config_dir_path(home: &str) -> (r: String)
    ensures
        r@ == spec_config_dir(home@),
{
    let h = to_char_vec(home);
    let d = to_char_vec(".image_rename_tool");
    let j = crate::paths::join_chars(&h, &d);
    crate::text::string_from_chars(&j)
}

/// The configuration file path under a given home directory.
pub fn config_file_path(home: &str) -> (r: String)
    ensures
        r@ == spec_config_file(home@),
{
    let dir = config_dir_path(home);
    let d = to_char_vec(dir.as_str());
    let f = to_char_vec("config.json");
    let j = crate::paths::join_chars(&d, &f);
    crate::text::string_from_chars(&j)
}

} // verus!

//! Default locations of the daemon's files.

use vstd::prelude::*;

use crate::text::{digits_of, last_char, unsigned_decimal_string};

verus! {

broadcast use vstd::string::group_string_axioms;

/// `name` appended to the path `base`, with one separator between them
/// unless `base` is empty or already ends in one.
pub open spec fn joined(base: Seq<char>, name: Seq<char>) -> Seq<char> {
    if base.len() == 0 {
        name
    } else if base.last() == '/' {
        base + name
    } else {
        base + seq!['/'] + name
    }
}

/// Append the relative path `name` to `base`.
pub fn join_path(base: &str, name: &str) -> (r: String)
    ensures
        r@ == joined(base@, name@),
{
    match last_char(base) {
        None => String::from_str(name),
        Some(c) => {
            if c == '/' {
                String::from_str(base).concat(name)
            } else {
                proof {
                    reveal_strlit("/");
                }
                String::from_str(base).concat("/").concat(name)
            }
        },
    }
}

/// The status socket path: `sledge.sock` in the runtime directory when
/// there is one, else `/tmp/sledge-<uid>.sock`.
pub fn socket_path_for(runtime_dir: Option<String>, uid: u32) -> (r: String)
    ensures
        r@ == match runtime_dir {
            Some(d) => joined(d@, "sledge.sock"@),
            None => "/tmp/sledge-"@ + digits_of(uid as nat) + ".sock"@,
        },
{
    match runtime_dir {
        Some(d) => join_path(d.as_str(), "sledge.sock"),
        None => {
            let digits = unsigned_decimal_string(uid as u64);
            String::from_str("/tmp/sledge-").concat(digits.as_str()).concat(".sock")
        },
    }
}

/// The default config file under the user's config directory.
pub fn config_path_under(config_dir: &str) -> (r: String)
    ensures
        r@ == joined(joined(config_dir@, "sledge"@), "config.toml"@),
{
    let dir = join_path(config_dir, "sledge");
    join_path(dir.as_str(), "config.toml")
}

/// The default config file, `~/.config/sledge/config.toml`, under the
/// user's home directory.
pub fn config_path_in_home(home: &str) -> (r: String)
    ensures
        r@ == joined(joined(joined(home@, ".config"@), "sledge"@), "config.toml"@),
{
    let dir = join_path(home, ".config");
    config_path_under(dir.as_str())
}

} // verus!

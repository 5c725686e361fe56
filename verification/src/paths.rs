//! The places under the configuration root where the firmware keeps its
//! files. Paths are those of a Unix system, with `/` between their parts.

use vstd::prelude::*;

verus! {

/// A path with one more part: the part alone where it starts at the root or
/// the path is empty, else the path, a `/` unless the path ends in one, and
/// the part.
pub open spec fn spec_join(base: Seq<char>, name: Seq<char>) -> Seq<char> {
    if name.len() > 0 && name[0] == '/' {
        name
    } else if base.len() == 0 {
        name
    } else if base.last() == '/' {
        base + name
    } else {
        base + seq!['/'] + name
    }
}

/// A path with one more part.
pub fn join(base: &str, name: &str) -> (r: String)
    ensures
        r@ == spec_join(base@, name@),
{
    let bn = base.unicode_len();
    let nn = name.unicode_len();
    if nn > 0 && name.get_char(0) == '/' {
        String::from_str(name)
    } else if bn == 0 {
        String::from_str(name)
    } else {
        let mut r = String::from_str(base);
        if base.get_char(bn - 1) != '/' {
            proof {
                reveal_strlit("/");
            }
            r.append("/");
            assert(r@ =~= base@ + seq!['/']);
        }
        r.append(name);
        r
    }
}

/// The folder of the screenshots.
pub fn screenshots_root(config_root: &str) -> (r: String)
    ensures
        r@ == spec_join(config_root@, "screenshots"@),
{
    join(config_root, "screenshots")
}

/// The folder of the cores.
pub fn core_root_path(config_root: &str) -> (r: String)
    ensures
        r@ == spec_join(config_root@, "cores"@),
{
    join(config_root, "cores")
}

/// The folder of the saved states of all cores.
pub fn savestates_root_path(config_root: &str) -> (r: String)
    ensures
        r@ == spec_join(config_root@, "savestates"@),
{
    join(config_root, "savestates")
}

/// The folder of the saves of all cores.
pub fn sav_root_path(config_root: &str) -> (r: String)
    ensures
        r@ == spec_join(config_root@, "saves"@),
{
    join(config_root, "saves")
}

/// The folder of the saved states of one core.
pub fn savestates_path(config_root: &str, core_name: &str) -> (r: String)
    ensures
        r@ == spec_join(spec_join(config_root@, "savestates"@), core_name@),
{
    let root = savestates_root_path(config_root);
    join(root.as_str(), core_name)
}

/// The folder of the saves of one core.
pub fn sav_path(config_root: &str, core_name: &str) -> (r: String)
    ensures
        r@ == spec_join(spec_join(config_root@, "saves"@), core_name@),
{
    let root = sav_root_path(config_root);
    join(root.as_str(), core_name)
}

/// The file of a database: under the configuration root, the name of the
/// database followed by `.sqlite`.
pub fn database_path(config_root: &str, name: &str) -> (r: String)
    ensures
        r@ == spec_join(config_root@, name@ + ".sqlite"@),
{
    let mut file = String::from_str(name);
    file.append(".sqlite");
    join(config_root, file.as_str())
}

} // verus!

//! Locations of locally cached model weights.
//!
//! Models live under the Hugging Face hub cache in the user's home
//! directory. A download first fills a sibling directory with a
//! `.downloading` suffix and is renamed into place when complete;
//! partially transferred files carry a `.part` extension and do not
//! count as cached content.

use vstd::prelude::*;

verus! {

/// Relies on home::home_dir: the user's home directory as the
/// environment reports it, or a lone slash when it reports none.
#[verifier::external_body]
fn home_dir_string() -> String {
    match home::home_dir() {
        Some(p) => p.to_string_lossy().into_owned(),
        None => String::from("/"),
    }
}

/// The hub cache directory under a home directory.
pub open spec fn spec_hub_dir(home: Seq<char>) -> Seq<char> {
    home + "/.cache/huggingface/hub"@
}

/// The cache directory of one repository under a home directory.
pub open spec fn spec_model_cache_dir(home: Seq<char>, repo_id: Seq<char>) -> Seq<char> {
    spec_hub_dir(home) + seq!['/'] + repo_id
}

/// The staging directory of one repository under a home directory.
pub open spec fn spec_model_downloading_dir(home: Seq<char>, repo_id: Seq<char>) -> Seq<char> {
    spec_model_cache_dir(home, repo_id) + ".downloading"@
}

/// The hub cache directory under `home`.
pub fn huggingface_hub_base_dir(home: &str) -> (r: String)
    ensures
        r@ == spec_hub_dir(home@),
{
    let mut out: String = home.to_owned();
    out.append("/.cache/huggingface/hub");
    out
}

/// The cache directory of `repo_id` under `home`.
pub fn model_cache_dir_in(home: &str, repo_id: &str) -> (r: String)
    ensures
        r@ == spec_model_cache_dir(home@, repo_id@),
{
    let mut out = huggingface_hub_base_dir(home);
    out.append("/");
    out.append(repo_id);
    proof {
        reveal_strlit("/");
        assert("/"@ =~= seq!['/']);
    }
    out
}

/// The directory where the model of `repo_id` should live, under this
/// user's hub cache.
pub fn model_cache_dir(repo_id: &str) -> (r: String)
    ensures
        exists|home: Seq<char>| r@ == spec_model_cache_dir(home, repo_id@),
{
    let home = home_dir_string();
    let out = model_cache_dir_in(home.as_str(), repo_id);
    proof {
        assert(out@ == spec_model_cache_dir(home@, repo_id@));
    }
    out
}

/// The staging directory used while the model of `repo_id` downloads,
/// beside its final cache directory.
pub fn model_downloading_dir(repo_id: &str) -> (r: String)
    ensures
        exists|home: Seq<char>| r@ == spec_model_downloading_dir(home, repo_id@),
{
    let home = home_dir_string();
    let mut out = model_cache_dir_in(home.as_str(), repo_id);
    out.append(".downloading");
    proof {
        assert(out@ == spec_model_downloading_dir(home@, repo_id@));
    }
    out
}

/// The position of the last dot in `name`, or a negative value when
/// there is none.
pub open spec fn spec_last_dot(name: Seq<char>) -> int
    decreases name.len(),
{
    if name.len() == 0 {
        -1
    } else if name.last() == '.' {
        name.len() - 1
    } else {
        spec_last_dot(name.drop_last())
    }
}

/// `s` spells `part` up to ASCII case.
pub open spec fn spec_is_part_ext(s: Seq<char>) -> bool {
    &&& s.len() == 4
    &&& (s[0] == 'p' || s[0] == 'P')
    &&& (s[1] == 'a' || s[1] == 'A')
    &&& (s[2] == 'r' || s[2] == 'R')
    &&& (s[3] == 't' || s[3] == 'T')
}

/// A file name marks a partial transfer when its extension — what
/// follows the last dot, the name's leading character aside — spells
/// `part` up to ASCII case.
pub open spec fn spec_is_temp_part_file(name: Seq<char>) -> bool {
    &&& 0 < spec_last_dot(name)
    &&& spec_is_part_ext(name.skip(spec_last_dot(name) + 1))
}

/// Decides whether the file name marks a partial transfer.
#[verifier::loop_isolation(false)]
pub fn is_temp_part_file(name: &str) -> (r: bool)
    ensures
        r == spec_is_temp_part_file(name@),
{
    let n = name.unicode_len();
    let mut i: usize = n;
    proof {
        assert(name@.take(n as int) =~= name@);
    }
    while i > 0
        invariant
            i <= n,
            n == name@.len(),
            spec_last_dot(name@) == spec_last_dot(name@.take(i as int)),
        decreases i,
    {
        proof {
            assert(name@.take(i as int).last() == name@[i as int - 1]);
            assert(name@.take(i as int).drop_last() =~= name@.take(i as int - 1));
        }
        if name.get_char(i - 1) == '.' {
            let dot = i - 1;
            proof {
                assert(spec_last_dot(name@) == dot);
            }
            if dot == 0 || n - dot != 5 {
                return false;
            }
            let c1 = name.get_char(dot + 1);
            let c2 = name.get_char(dot + 2);
            let c3 = name.get_char(dot + 3);
            let c4 = name.get_char(dot + 4);
            let ok = (c1 == 'p' || c1 == 'P') && (c2 == 'a' || c2 == 'A') && (c3 == 'r' || c3
                == 'R') && (c4 == 't' || c4 == 'T');
            proof {
                let ext = name@.skip(dot + 1);
                assert(ext.len() == 4);
                assert(ext[0] == name@[dot + 1]);
                assert(ext[1] == name@[dot + 2]);
                assert(ext[2] == name@[dot + 3]);
                assert(ext[3] == name@[dot + 4]);
            }
            return ok;
        }
        i = i - 1;
    }
    proof {
        assert(name@.take(0) =~= Seq::<char>::empty());
    }
    false
}

} // verus!

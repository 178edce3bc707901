use vstd::prelude::*;
use crate::text::to_chars;

verus! {

/// Directory that holds the policy files.
pub const POLICY_ROOT: &'static str = "/etc/apparmor.d";

/// `s` with every `/` turned into `.`.
pub open spec fn dotted(s: Seq<char>) -> Seq<char> {
    s.map_values(|c: char| if c == '/' { '.' } else { c })
}

/// The policy file name for a profile: a path loses its leading `/` and has
/// its other `/` turned into `.`; any other identifier is the name itself.
pub open spec fn policy_file(id: Seq<char>) -> Seq<char> {
    if id.len() > 0 && id[0] == '/' {
        dotted(id.drop_first())
    } else {
        id
    }
}

/// The policy file of a profile under the directory `root`.
pub open spec fn policy_path_of(root: Seq<char>, id: Seq<char>) -> Seq<char> {
    root + "/"@ + policy_file(id)
}

/// Path of the policy file for the profile `identifier` under `root`.
pub fn policy_path(root: &str, identifier: &str) -> (r: String)
    ensures
        r@ == policy_path_of(root@, identifier@),
{
    let mut r = String::from_str(root);
    r.append("/");
    let s = to_chars(identifier);
    let n = s.len();
    if n == 0 || s[0] != '/' {
        r.append(identifier);
        return r;
    }
    let ghost base = r@;
    let mut i: usize = 1;
    assert(dotted(s@.subrange(1, 1)) =~= Seq::<char>::empty());
    while i < n
        invariant
            1 <= i <= n,
            n == s.len(),
            s@ == identifier@,
            r@ == base + dotted(s@.subrange(1, i as int)),
        decreases n - i,
    {
        let ghost prev = r@;
        if s[i] == '/' {
            r.append(".");
            proof {
                reveal_strlit(".");
            }
            assert("."@ =~= seq!['.']);
        } else {
            let piece = identifier.substring_char(i, i + 1);
            r.append(piece);
            assert(piece@ =~= seq![s@[i as int]]);
        }
        assert(r@ =~= prev + seq![if s@[i as int] == '/' { '.' } else { s@[i as int] }]);
        assert(dotted(s@.subrange(1, i + 1)) =~= dotted(s@.subrange(1, i as int)) + seq![
            if s@[i as int] == '/' { '.' } else { s@[i as int] },
        ]);
        i = i + 1;
    }
    assert(s@.subrange(1, n as int) =~= identifier@.drop_first());
    r
}

} // verus!

//! Upload rules: a file is backed up when its base name starts with a
//! rule's prefix, and the first such rule in configuration order decides
//! the remote directory.

use vstd::prelude::*;

verus! {

/// One upload rule: a mapping from a file-name prefix to a remote
/// directory.
#[derive(Debug, Clone)]
pub struct DirectoryEntry {
    pub local_name_prefix: String,
    pub remote_path: String,
}

/// Whether `name` starts with the prefix of `rule`.
pub open spec fn spec_rule_matches(rule: DirectoryEntry, name: Seq<char>) -> bool {
    rule.local_name_prefix@.is_prefix_of(name)
}

/// The index of the first rule whose prefix starts `name`, scanning in
/// configuration order.
pub open spec fn spec_match_rule(name: Seq<char>, rules: Seq<DirectoryEntry>) -> Option<int>
    decreases rules.len(),
{
    if rules.len() == 0 {
        None
    } else if spec_rule_matches(rules.first(), name) {
        Some(0)
    } else {
        match spec_match_rule(name, rules.drop_first()) {
            Some(i) => Some(i + 1),
            None => None,
        }
    }
}

/// The first-match rule, characterized: a found index is in range,
/// matches, and no earlier rule matches; no index means no rule matches.
pub proof fn lemma_match_rule_first(name: Seq<char>, rules: Seq<DirectoryEntry>)
    ensures
        spec_match_rule(name, rules) matches Some(i) ==> 0 <= i < rules.len()
            && spec_rule_matches(rules[i], name) && (forall|j: int|
            0 <= j < i ==> !spec_rule_matches(rules[j], name)),
        spec_match_rule(name, rules) is None ==> forall|j: int|
            0 <= j < rules.len() ==> !spec_rule_matches(rules[j], name),
    decreases rules.len(),
{
    if rules.len() > 0 && !spec_rule_matches(rules.first(), name) {
        let rest = rules.drop_first();
        lemma_match_rule_first(name, rest);
        assert(forall|j: int| 0 <= j < rest.len() ==> rest[j] == rules[j + 1]);
        match spec_match_rule(name, rest) {
            Some(i2) => {
                assert(spec_match_rule(name, rules) == Some(i2 + 1));
                assert(spec_rule_matches(rest[i2], name));
                assert forall|j: int| 0 <= j < i2 + 1 implies !spec_rule_matches(
                    rules[j],
                    name,
                ) by {
                    if j > 0 {
                        assert(rules[j] == rest[j - 1]);
                    }
                }
            },
            None => {
                assert forall|j: int| 0 <= j < rules.len() implies !spec_rule_matches(
                    rules[j],
                    name,
                ) by {
                    if j > 0 {
                        assert(rules[j] == rest[j - 1]);
                    }
                }
            },
        }
    }
}

/// The converse characterization: the first matching index is what the
/// scan finds, and no match anywhere means the scan finds nothing.
pub proof fn lemma_match_rule_complete(name: Seq<char>, rules: Seq<DirectoryEntry>, i: int)
    requires
        0 <= i < rules.len(),
        spec_rule_matches(rules[i], name),
        forall|j: int| 0 <= j < i ==> !spec_rule_matches(rules[j], name),
    ensures
        spec_match_rule(name, rules) == Some(i),
    decreases rules.len(),
{
    if i > 0 {
        let rest = rules.drop_first();
        assert(forall|j: int| 0 <= j < rest.len() ==> rest[j] == rules[j + 1]);
        lemma_match_rule_complete(name, rest, i - 1);
    }
}

/// Whether `name` starts with `prefix`, character for character.
pub fn starts_with_prefix(name: &str, prefix: &str) -> (b: bool)
    ensures
        b == prefix@.is_prefix_of(name@),
{
    let p_len = prefix.unicode_len();
    let n_len = name.unicode_len();
    if p_len > n_len {
        return false;
    }
    let mut i: usize = 0;
    while i < p_len
        invariant
            i <= p_len,
            p_len == prefix@.len(),
            n_len == name@.len(),
            p_len <= n_len,
            forall|j: int| 0 <= j < i ==> name@[j] == prefix@[j],
        decreases p_len - i,
    {
        if name.get_char(i) != prefix.get_char(i) {
            proof {
                assert(name@.subrange(0, p_len as int)[i as int] != prefix@[i as int]);
            }
            return false;
        }
        i = i + 1;
    }
    proof {
        assert(name@.subrange(0, p_len as int) =~= prefix@);
    }
    true
}

/// The index of the first rule, in configuration order, whose prefix
/// starts `name`; `None` when no rule matches. A file matches at most
/// one rule: the earliest.
pub fn match_rule(name: &str, rules: &Vec<DirectoryEntry>) -> (r: Option<usize>)
    ensures
        r matches Some(i) ==> i < rules@.len() && spec_match_rule(name@, rules@) == Some(i as int),
        r is None ==> spec_match_rule(name@, rules@) is None,
{
    let n = rules.len();
    let mut i: usize = 0;
    while i < n
        invariant
            i <= n,
            n == rules@.len(),
            forall|j: int| 0 <= j < i ==> !spec_rule_matches(rules@[j], name@),
        decreases n - i,
    {
        if starts_with_prefix(name, rules[i].local_name_prefix.as_str()) {
            proof {
                lemma_match_rule_complete(name@, rules@, i as int);
            }
            return Some(i);
        }
        i = i + 1;
    }
    proof {
        lemma_match_rule_first(name@, rules@);
        match spec_match_rule(name@, rules@) {
            Some(k) => {
                assert(!spec_rule_matches(rules@[k], name@));
                assert(false);
            },
            None => {},
        }
    }
    None
}

/// The remote key for a file: the rule's remote directory and the file's
/// base name joined with a single `/`, the name alone when the directory
/// is empty.
pub open spec fn spec_remote_key(dir: Seq<char>, name: Seq<char>) -> Seq<char> {
    if dir.len() == 0 {
        name
    } else if dir.last() == '/' {
        dir + name
    } else {
        dir + seq!['/'] + name
    }
}

/// Joins a remote directory and a base name into the remote key.
pub fn remote_key(dir: &str, name: &str) -> (r: String)
    ensures
        r@ == spec_remote_key(dir@, name@),
{
    let d_len = dir.unicode_len();
    if d_len == 0 {
        return String::from_str(name);
    }
    let mut out = String::from_str(dir);
    let last = dir.get_char(d_len - 1);
    if last != '/' {
        let sep: &str = "/";
        proof {
            reveal_strlit("/");
            assert(sep@ =~= seq!['/']);
        }
        out.append(sep);
    }
    out.append(name);
    proof {
        assert(out@ =~= spec_remote_key(dir@, name@));
    }
    out
}

} // verus!

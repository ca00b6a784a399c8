use vstd::prelude::*;

verus! {

/// The position of the last `.` in `name`, or -1 when there is none.
pub open spec fn last_dot(name: Seq<char>) -> int
    decreases name.len(),
{
    if name.len() == 0 {
        -1
    } else if name.last() == '.' {
        name.len() - 1
    } else {
        last_dot(name.drop_last())
    }
}

/// The extension of a file name, as `Path::extension` gives it: the text after the last
/// `.`, or nothing when the name has no `.`, when its only `.` is the first character,
/// or when the name is `..`.
pub open spec fn spec_extension(name: Seq<char>) -> Option<Seq<char>> {
    if name == seq!['.', '.'] || last_dot(name) <= 0 {
        None
    } else {
        Some(name.subrange(last_dot(name) + 1, name.len() as int))
    }
}

proof fn lemma_last_dot_bounds(name: Seq<char>)
    ensures
        -1 <= last_dot(name) < name.len(),
        last_dot(name) >= 0 ==> name[last_dot(name)] == '.',
        forall|j: int| last_dot(name) < j < name.len() ==> name[j] != '.',
    decreases name.len(),
{
    if name.len() > 0 && name.last() != '.' {
        let rest = name.drop_last();
        lemma_last_dot_bounds(rest);
        assert forall|j: int| last_dot(name) < j < name.len() implies name[j] != '.' by {
            if j < rest.len() {
                assert(rest[j] == name[j]);
            }
        }
    }
}

/// One past the position of the last `.` in a file name: 0 when it has none.
fn after_last_dot(file_name: &str) -> (r: usize)
    ensures
        r as int == last_dot(file_name@) + 1,
{
    let len = file_name.unicode_len();
    proof {
        lemma_last_dot_bounds(file_name@);
    }
    let mut i = len;
    let mut found = false;
    while i > 0 && !found
        invariant
            len == file_name@.len(),
            i <= len,
            found ==> i > 0 && file_name@[i - 1] == '.',
            forall|j: int| i <= j < len ==> file_name@[j] != '.',
        decreases i + (if found { 0int } else { 1int }),
    {
        if file_name.get_char(i - 1) == '.' {
            found = true;
        } else {
            i = i - 1;
        }
    }
    proof {
        if i > 0 {
            lemma_last_dot_unique(file_name@, i - 1);
        } else {
            lemma_no_dot(file_name@);
        }
    }
    i
}

/// Whether a file name is `..`.
fn is_parent_name(file_name: &str) -> (r: bool)
    ensures
        r == (file_name@ == seq!['.', '.']),
{
    if file_name.unicode_len() == 2 && file_name.get_char(0) == '.' && file_name.get_char(1) == '.' {
        assert(file_name@ =~= seq!['.', '.']);
        true
    } else {
        proof {
            if file_name@ == seq!['.', '.'] {
                assert(file_name@[0] == '.' && file_name@[1] == '.');
            }
        }
        false
    }
}

/// The extension of a file name (the last component of a path).
pub fn extension(file_name: &str) -> (r: Option<String>)
    ensures
        match spec_extension(file_name@) {
            Some(ext) => r matches Some(s) && s@ == ext,
            None => r is None,
        },
{
    let i = after_last_dot(file_name);
    if i <= 1 || is_parent_name(file_name) {
        return None;
    }
    proof {
        lemma_last_dot_bounds(file_name@);
    }
    let ext = file_name.substring_char(i, file_name.unicode_len());
    Some(ext.to_owned())
}

/// The stem of a file name, as `Path::file_stem` gives it: nothing for an empty name,
/// `.` or `..`; the whole name when it has no `.` or only a leading one; otherwise the
/// text before the last `.`.
pub open spec fn spec_file_stem(name: Seq<char>) -> Option<Seq<char>> {
    if name.len() == 0 || name == seq!['.'] || name == seq!['.', '.'] {
        None
    } else if last_dot(name) <= 0 {
        Some(name)
    } else {
        Some(name.subrange(0, last_dot(name)))
    }
}

/// The stem of a file name (the last component of a path).
pub fn file_stem(file_name: &str) -> (r: Option<String>)
    ensures
        match spec_file_stem(file_name@) {
            Some(stem) => r matches Some(s) && s@ == stem,
            None => r is None,
        },
{
    let len = file_name.unicode_len();
    if len == 0 || is_parent_name(file_name) {
        return None;
    }
    if len == 1 && file_name.get_char(0) == '.' {
        assert(file_name@ =~= seq!['.']);
        return None;
    }
    proof {
        if file_name@ == seq!['.'] {
            assert(file_name@[0] == '.');
        }
    }
    let i = after_last_dot(file_name);
    proof {
        lemma_last_dot_bounds(file_name@);
    }
    if i <= 1 {
        return Some(file_name.to_owned());
    }
    let stem = file_name.substring_char(0, i - 1);
    Some(stem.to_owned())
}

proof fn lemma_last_dot_unique(name: Seq<char>, d: int)
    requires
        0 <= d < name.len(),
        name[d] == '.',
        forall|j: int| d < j < name.len() ==> name[j] != '.',
    ensures
        last_dot(name) == d,
    decreases name.len(),
{
    if name.last() != '.' {
        let rest = name.drop_last();
        assert(rest[d] == '.');
        assert forall|j: int| d < j < rest.len() implies rest[j] != '.' by {
            assert(rest[j] == name[j]);
        }
        lemma_last_dot_unique(rest, d);
    }
}

proof fn lemma_no_dot(name: Seq<char>)
    requires
        forall|j: int| 0 <= j < name.len() ==> name[j] != '.',
    ensures
        last_dot(name) == -1,
    decreases name.len(),
{
    if name.len() > 0 {
        let rest = name.drop_last();
        assert forall|j: int| 0 <= j < rest.len() implies rest[j] != '.' by {
            assert(rest[j] == name[j]);
        }
        lemma_no_dot(rest);
    }
}


/// A file name with an extension is its stem, a `.`, then the extension; a name with a
/// stem but no extension is its stem alone.
pub proof fn lemma_stem_dot_extension(name: Seq<char>)
    ensures
        spec_extension(name) matches Some(ext) ==> spec_file_stem(name) matches Some(stem)
            && name == stem + seq!['.'] + ext,
        spec_extension(name) is None && spec_file_stem(name) is Some ==> spec_file_stem(
            name,
        ).unwrap() == name,
{
    lemma_last_dot_bounds(name);
    if spec_extension(name) is Some {
        let d = last_dot(name);
        assert(name.len() != 0);
        assert(name != seq!['.']) by {
            if name == seq!['.'] {
                assert(name.len() == 1);
            }
        }
        assert(name =~= name.subrange(0, d) + seq!['.'] + name.subrange(d + 1, name.len() as int));
    }
}

} // verus!

//! Where in the configuration a key binding stands, and the report of two
//! bindings that use one key.

use vstd::prelude::*;
use vstd::string::*;
use crate::config::keys::KeyBinding;
use crate::text::concat;

verus! {

/// The fields of `parts`, joined by `.`.
pub open spec fn join_dots(parts: Seq<Seq<char>>) -> Seq<char>
    decreases parts.len(),
{
    if parts.len() == 0 {
        Seq::<char>::empty()
    } else if parts.len() == 1 {
        parts[0]
    } else {
        join_dots(parts.drop_last()) + seq!['.'] + parts.last()
    }
}

/// What a list of texts holds, text by text.
pub open spec fn parts_of(parts: Seq<&'static str>) -> Seq<Seq<char>> {
    Seq::new(parts.len(), |i: int| parts[i]@)
}

/// The stack of the fields that lead to the place in the configuration that
/// is looked at.
#[derive(Debug, Clone, PartialEq)]
pub struct KeyPath(Vec<&'static str>);

impl View for KeyPath {
    type V = Seq<Seq<char>>;

    closed spec fn view(&self) -> Seq<Seq<char>> {
        parts_of(self.0@)
    }
}

impl KeyPath {
    /// The empty path.
    pub fn new() -> (r: KeyPath)
        ensures
            r@ == Seq::<Seq<char>>::empty(),
    {
        let r = KeyPath(Vec::new());
        assert(r@ =~= Seq::<Seq<char>>::empty());
        r
    }

    /// The path of the one field `value`.
    pub fn new_with_toplevel(value: &'static str) -> (r: KeyPath)
        ensures
            r@ == seq![value@],
    {
        let mut ret = KeyPath::new();
        ret.push(value);
        assert(ret@ =~= seq![value@]);
        ret
    }

    /// Puts a field on the path.
    pub fn push(&mut self, value: &'static str)
        ensures
            final(self)@ == old(self)@.push(value@),
    {
        self.0.push(value);
        assert(self@ =~= old(self)@.push(value@));
    }

    /// Takes the last field off the path and hands it back; `None` for the
    /// empty path.
    pub fn pop(&mut self) -> (r: Option<&'static str>)
        ensures
            old(self)@.len() == 0 ==> r is None && final(self)@ == old(self)@,
            old(self)@.len() > 0 ==> (r matches Some(v) && v@ == old(self)@.last()) && final(self)@
                == old(self)@.drop_last(),
    {
        let r = self.0.pop();
        assert(old(self)@.len() > 0 ==> self@ =~= old(self)@.drop_last());
        assert(old(self)@.len() == 0 ==> self@ =~= old(self)@);
        r
    }

    /// The fields of the path joined by `.`, then `.` and `field`.
    pub fn join_with_field(&self, field: &'static str) -> (r: String)
        ensures
            r@ == join_dots(self@) + seq!['.'] + field@,
    {
        let mut ret = String::new();
        let mut i: usize = 0;
        assert(self@.take(0) =~= Seq::<Seq<char>>::empty());
        while i < self.0.len()
            invariant
                i <= self.0.len(),
                ret@ == join_dots(self@.take(i as int)),
            decreases self.0.len() - i,
        {
            let ghost before = self@.take(i as int);
            let ghost after = self@.take(i as int + 1);
            assert(after.drop_last() =~= before);
            assert(after.last() == self.0@[i as int]@);
            if i > 0 {
                ret.push('.');
            }
            ret.append(self.0[i]);
            proof {
                if i == 0 {
                    assert(ret@ =~= self.0@[0]@);
                } else {
                    assert(ret@ =~= join_dots(before) + seq!['.'] + after.last());
                }
            }
            i += 1;
        }
        assert(self@.take(i as int) =~= self@);
        ret.push('.');
        ret.append(field);
        assert(ret@ =~= join_dots(self@) + seq!['.'] + field@);
        ret
    }
}

/// Two bindings that use one key.
#[derive(Debug, Clone, PartialEq)]
pub struct KeyConflictError {
    /// Where the first of the two stands.
    pub key_path_first: String,
    /// Where the second stands.
    pub key_path_second: String,
    /// The key of both.
    pub key: KeyBinding,
}

/// The report of two bindings at `first` and `second` that use the key
/// written `key`.
pub open spec fn conflict_text(first: Seq<char>, second: Seq<char>, key: Seq<char>) -> Seq<char> {
    "Key Conflict: '"@ + first + "' and '"@ + second + "', key: '"@ + key + "'"@
}

impl KeyConflictError {
    /// The report in words; `key` is the key as it is shown to the user.
    pub fn to_string(&self, key: &str) -> (r: String)
        ensures
            r@ == conflict_text(self.key_path_first@, self.key_path_second@, key@),
    {
        let mut r = concat("Key Conflict: '", self.key_path_first.as_str());
        r.append("' and '");
        r.append(self.key_path_second.as_str());
        r.append("', key: '");
        r.append(key);
        r.append("'");
        r
    }
}

/// What was put on a path last comes off first, and the path is then what
/// it was before.
pub proof fn lemma_push_then_pop(path: Seq<Seq<char>>, value: Seq<char>)
    ensures
        path.push(value).last() == value,
        path.push(value).drop_last() == path,
        path.len() > 0 ==> join_dots(path.push(value)) == join_dots(path) + seq!['.'] + value,
{
    assert(path.push(value).drop_last() =~= path);
}

} // verus!

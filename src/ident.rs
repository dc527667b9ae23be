//! Record identifiers and their `table:key` text form.
use vstd::prelude::*;

verus! {

/// Identifies one stored record: the table it lives in and its key there.
#[derive(Debug, PartialEq, Eq)]
pub struct RecordId {
    pub table: String,
    pub key: String,
}

/// Why a record identifier could not be read from text.
#[derive(Debug, Clone, Copy, PartialEq, Eq, Structural)]
pub enum IdError {
    MalformedIdentifier,
}

/// The separator between table and key.
pub open spec fn sep() -> Seq<char> {
    seq![':']
}

pub open spec fn colon_free(s: Seq<char>) -> bool {
    forall|i: int| 0 <= i < s.len() ==> s[i] != ':'
}

/// A table name and key that make a well-formed identifier.
pub open spec fn valid_parts(table: Seq<char>, key: Seq<char>) -> bool {
    &&& table.len() > 0
    &&& colon_free(table)
    &&& key.len() > 0
}

/// The text form of an identifier.
pub open spec fn token(table: Seq<char>, key: Seq<char>) -> Seq<char> {
    table + sep() + key
}

/// `i` is the first separator of `s`, with text on both sides of it.
pub open spec fn split_at_ok(s: Seq<char>, i: int) -> bool {
    &&& 0 < i < s.len() - 1
    &&& s[i] == ':'
    &&& colon_free(s.take(i))
}

/// What `parse` reads from `s`: table and key, or nothing for malformed text.
pub open spec fn parse_spec(s: Seq<char>) -> Option<(Seq<char>, Seq<char>)> {
    if exists|i: int| split_at_ok(s, i) {
        let i = choose|i: int| split_at_ok(s, i);
        Some((s.take(i), s.skip(i + 1)))
    } else {
        None
    }
}

impl RecordId {
    pub open spec fn wf(&self) -> bool {
        valid_parts(self.table@, self.key@)
    }

    pub open spec fn parts(&self) -> (Seq<char>, Seq<char>) {
        (self.table@, self.key@)
    }

    /// A copy with the same table and key.
    pub fn duplicate(&self) -> (r: RecordId)
        ensures
            r == *self,
    {
        RecordId { table: self.table.clone(), key: self.key.clone() }
    }

    /// Whether this identifier is well formed.
    pub fn is_valid(&self) -> (r: bool)
        ensures
            r == self.wf(),
    {
        let n = self.table.as_str().unicode_len();
        if n == 0 || self.key.as_str().unicode_len() == 0 {
            return false;
        }
        let mut i: usize = 0;
        while i < n
            invariant
                n == self.table@.len(),
                i <= n,
                forall|j: int| 0 <= j < i ==> self.table@[j] != ':',
            decreases n - i,
        {
            if self.table.as_str().get_char(i) == ':' {
                return false;
            }
            i = i + 1;
        }
        true
    }

    /// Whether both identifiers name the same record.
    pub fn same_as(&self, other: &RecordId) -> (r: bool)
        ensures
            r == (self.parts() == other.parts()),
    {
        crate::text::same_text(self.table.as_str(), other.table.as_str())
            && crate::text::same_text(self.key.as_str(), other.key.as_str())
    }
}

/// At most one position splits a text into table and key.
pub proof fn lemma_split_unique(s: Seq<char>, a: int, b: int)
    requires
        split_at_ok(s, a),
        split_at_ok(s, b),
    ensures
        a == b,
{
    if a < b {
        assert(s.take(b)[a] == s[a]);
    } else if b < a {
        assert(s.take(a)[b] == s[b]);
    }
}

/// Writing a well-formed identifier and reading the text back gives the same
/// table and key: the text splits exactly where the table ends.
pub proof fn lemma_parse_format_round_trip(table: Seq<char>, key: Seq<char>)
    requires
        valid_parts(table, key),
    ensures
        split_at_ok(token(table, key), table.len() as int),
        parse_spec(token(table, key)) == Some((table, key)),
{
    let s = token(table, key);
    let i = table.len() as int;
    assert(s.take(i) =~= table);
    assert(split_at_ok(s, i));
    let j = choose|j: int| split_at_ok(s, j);
    lemma_split_unique(s, i, j);
    assert(s.skip(i + 1) =~= key);
}

/// Writes an identifier as `table:key`.
pub fn format(id: &RecordId) -> (r: String)
    ensures
        r@ == token(id.table@, id.key@),
{
    let mut r = String::from_str(id.table.as_str());
    r.append(":");
    proof {
        reveal_strlit(":");
    }
    assert(":"@ =~= sep());
    r.append(id.key.as_str());
    r
}

/// Reads an identifier from `table:key`: the table is what stands before the
/// first separator, the key all that follows it; both must be non-empty.
pub fn parse(text: &str) -> (r: Result<RecordId, IdError>)
    ensures
        match r {
            Ok(id) => id.wf() && parse_spec(text@) == Some(id.parts()) && text@ == token(
                id.table@,
                id.key@,
            ),
            Err(e) => e == IdError::MalformedIdentifier && parse_spec(text@) is None,
        },
{
    let n = text.unicode_len();
    let mut i: usize = 0;
    while i < n
        invariant
            n == text@.len(),
            i <= n,
            colon_free(text@.take(i as int)),
        ensures
            i <= n,
            colon_free(text@.take(i as int)),
            i < n ==> text@[i as int] == ':',
        decreases n - i,
    {
        if text.get_char(i) == ':' {
            break;
        }
        assert(text@.take(i as int + 1) =~= text@.take(i as int).push(text@[i as int]));
        i = i + 1;
    }
    let ghost s = text@;
    if i == 0 || i >= n - 1 {
        proof {
            if exists|j: int| split_at_ok(s, j) {
                let j = choose|j: int| split_at_ok(s, j);
                if j < i {
                    assert(s.take(i as int)[j] == s[j]);
                } else if i < j {
                    assert(s.take(j)[i as int] == s[i as int]);
                }
            }
        }
        return Err(IdError::MalformedIdentifier);
    }
    let table = text.substring_char(0, i);
    let key = text.substring_char(i + 1, n);
    let id = RecordId { table: String::from_str(table), key: String::from_str(key) };
    proof {
        assert(split_at_ok(s, i as int));
        let j = choose|j: int| split_at_ok(s, j);
        lemma_split_unique(s, i as int, j);
        assert(s.take(i as int) =~= s.subrange(0, i as int));
        assert(id.table@ =~= s.take(i as int));
        assert(token(id.table@, id.key@) =~= s);
    }
    Ok(id)
}

} // verus!

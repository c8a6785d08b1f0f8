use vstd::prelude::*;

use crate::error::StoreError;

verus! {

/// A character that may appear in a table name.
pub open spec fn is_ident_char(c: char) -> bool {
    ('a' <= c && c <= 'z') || ('A' <= c && c <= 'Z') || ('0' <= c && c <= '9') || c == '_'
}

/// A table name that may be interpolated into SQL: non-empty, and made of
/// ASCII letters, digits and underscores only.
pub open spec fn is_valid_table_name(s: Seq<char>) -> bool {
    &&& s.len() > 0
    &&& forall|i: int| 0 <= i < s.len() ==> is_ident_char(#[trigger] s[i])
}

fn ident_char(c: char) -> (r: bool)
    ensures
        r == is_ident_char(c),
{
    ('a' <= c && c <= 'z') || ('A' <= c && c <= 'Z') || ('0' <= c && c <= '9') || c == '_'
}

/// Decides whether `name` is a safe table name.
pub fn validate_table_name(name: &str) -> (r: bool)
    ensures
        r == is_valid_table_name(name@),
{
    let n = name.unicode_len();
    if n == 0 {
        return false;
    }
    let mut i: usize = 0;
    while i < n
        invariant
            n == name@.len(),
            i <= n,
            forall|j: int| 0 <= j < i ==> is_ident_char(#[trigger] name@[j]),
        decreases n - i,
    {
        if !ident_char(name.get_char(i)) {
            return false;
        }
        i = i + 1;
    }
    true
}

/// A table name that has passed validation. Only values of this type are
/// ever placed into SQL text.
pub struct TableName {
    name: String,
}

impl View for TableName {
    type V = Seq<char>;

    closed spec fn view(&self) -> Seq<char> {
        self.name@
    }
}

impl TableName {
    #[verifier::type_invariant]
    spec fn inv(&self) -> bool {
        is_valid_table_name(self.name@)
    }

    /// Accepts `name` as a table name, or rejects it with `InvalidIdentifier`.
    pub fn parse(name: &str) -> (r: Result<TableName, StoreError>)
        ensures
            is_valid_table_name(name@) <==> r is Ok,
            r is Ok ==> r->Ok_0@ == name@,
            r is Err ==> r->Err_0 == StoreError::InvalidIdentifier,
    {
        if validate_table_name(name) {
            Ok(TableName { name: name.to_owned() })
        } else {
            Err(StoreError::InvalidIdentifier)
        }
    }

    /// The name as text.
    pub fn as_str(&self) -> (r: &str)
        ensures
            r@ == self@,
            is_valid_table_name(r@),
    {
        proof {
            use_type_invariant(self);
        }
        self.name.as_str()
    }
}

} // verus!

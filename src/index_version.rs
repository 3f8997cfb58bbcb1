//! Physical index versions and their names: `"{alias}_{version}"`.

use vstd::prelude::*;
use crate::decimal::{decimal, parse_u32, push_decimal, parse_u32_str, push_char};

verus! {

/// The separator between an alias and a version in an index name.
pub open spec fn separator() -> char {
    '_'
}

/// Position of the last `c` in `s`, if any.
pub open spec fn last_index_of(s: Seq<char>, c: char) -> Option<int>
    decreases s.len(),
{
    if s.len() == 0 {
        None
    } else if s.last() == c {
        Some(s.len() - 1)
    } else {
        last_index_of(s.drop_last(), c)
    }
}

/// Name of the physical index that holds `version` of `alias`.
pub open spec fn index_name(alias: Seq<char>, version: nat) -> Seq<char> {
    alias + seq![separator()] + decimal(version)
}

/// Version that an index name carries: the text after its last separator,
/// read as a `u32`.
pub open spec fn version_in_name(name: Seq<char>) -> Option<u32> {
    match last_index_of(name, separator()) {
        None => None,
        Some(i) => parse_u32(name.subrange(i + 1, name.len() as int)),
    }
}

/// Version of a physical index. Versions count up from 1, one per reindex.
#[derive(Debug, Clone, Copy, PartialEq, Eq, Structural)]
pub struct IndexVersion(pub u32);

impl Default for IndexVersion {
    /// The version of the first index made under an alias.
    fn default() -> (r: IndexVersion)
        ensures
            r.0 == 1,
    {
        IndexVersion(1)
    }
}

impl IndexVersion {
    /// The version that follows this one.
    pub fn incremented(self) -> (r: IndexVersion)
        requires
            self.0 < u32::MAX,
        ensures
            r.0 == self.0 + 1,
            r.0 > self.0,
    {
        IndexVersion(self.0 + 1)
    }

    /// Reads the version from an index name: the text after the last `_`,
    /// which must be a `u32`. Any other shape gives `None`.
    pub fn from_index_name(name: &str) -> (r: Option<IndexVersion>)
        ensures
            r == (match version_in_name(name@) {
                Some(v) => Some(IndexVersion(v)),
                None => None::<IndexVersion>,
            }),
    {
        let index = match last_underscore(name) {
            Some(i) => i,
            None => return None,
        };
        let len = name.unicode_len();
        let suffix = name.substring_char(index + 1, len);
        match parse_u32_str(suffix) {
            Some(v) => Some(IndexVersion(v)),
            None => None,
        }
    }

    /// Name of the physical index of this version under `alias`.
    pub fn attach_to_alias(self, alias: &str) -> (r: String)
        ensures
            r@ == index_name(alias@, self.0 as nat),
    {
        let mut name = String::from_str(alias);
        push_char(&mut name, '_');
        push_decimal(&mut name, self.0);
        assert(name@ =~= index_name(alias@, self.0 as nat));
        name
    }
}

/// Position of the last `_` in `s`.
fn last_underscore(s: &str) -> (r: Option<usize>)
    ensures
        match r {
            Some(i) => last_index_of(s@, separator()) == Some(i as int) && i < s@.len(),
            None => last_index_of(s@, separator()) is None,
        },
{
    let mut i: usize = s.unicode_len();
    assert(s@.take(i as int) =~= s@);
    while i > 0
        invariant
            i <= s@.len(),
            last_index_of(s@, separator()) == last_index_of(s@.take(i as int), separator()),
        decreases i,
    {
        let ghost t = s@.take(i as int);
        assert(t.drop_last() =~= s@.take(i - 1));
        if s.get_char(i - 1) == '_' {
            return Some(i - 1);
        }
        i = i - 1;
    }
    assert(s@.take(0) =~= Seq::<char>::empty());
    None
}

/// Name of the physical index `"{alias}_v{version}"`.
pub fn versioned_index_name(alias: &str, version: u32) -> (r: String)
    ensures
        r@ == alias@ + seq!['_', 'v'] + decimal(version as nat),
{
    let mut name = String::from_str(alias);
    push_char(&mut name, '_');
    push_char(&mut name, 'v');
    push_decimal(&mut name, version);
    assert(name@ =~= alias@ + seq!['_', 'v'] + decimal(version as nat));
    name
}

/// The last separator of an index name is the one before its version.
proof fn lemma_last_separator(alias: Seq<char>, version: nat)
    ensures
        last_index_of(index_name(alias, version), separator()) == Some(alias.len() as int),
{
    crate::decimal::lemma_decimal_has_no_underscore(version);
    let digits = decimal(version);
    lemma_strip_digits(alias, digits, digits.len() as int);
    assert(digits.take(digits.len() as int) =~= digits);
}

proof fn lemma_strip_digits(alias: Seq<char>, digits: Seq<char>, j: int)
    requires
        0 <= j <= digits.len(),
        forall|i: int| 0 <= i < digits.len() ==> #[trigger] digits[i] != '_',
    ensures
        last_index_of(alias + seq![separator()] + digits.take(j), separator())
            == Some(alias.len() as int),
    decreases j,
{
    let s = alias + seq![separator()] + digits.take(j);
    if j == 0 {
        assert(s.last() == separator());
    } else {
        lemma_strip_digits(alias, digits, j - 1);
        assert(s.drop_last() =~= alias + seq![separator()] + digits.take(j - 1));
        assert(s.last() == digits[j - 1]);
    }
}

/// Reading the version back from the name of an index gives that version,
/// whatever the alias holds.
pub proof fn lemma_version_round_trip(alias: Seq<char>, v: IndexVersion)
    ensures
        version_in_name(index_name(alias, v.0 as nat)) == Some(v.0),
{
    let name = index_name(alias, v.0 as nat);
    lemma_last_separator(alias, v.0 as nat);
    assert(name.subrange(alias.len() + 1 as int, name.len() as int) =~= decimal(v.0 as nat));
    crate::decimal::lemma_parse_decimal(v.0);
}

/// Two versions under one alias never share an index name.
pub proof fn lemma_index_name_injective(alias: Seq<char>, v: IndexVersion, w: IndexVersion)
    requires
        index_name(alias, v.0 as nat) == index_name(alias, w.0 as nat),
    ensures
        v == w,
{
    lemma_version_round_trip(alias, v);
    lemma_version_round_trip(alias, w);
}

} // verus!

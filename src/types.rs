use vstd::prelude::*;
use vstd::std_specs::cmp::{PartialEqSpec, PartialOrdSpec};

verus! {

/// The lowercase form of a text, as `str::to_lowercase` computes it.
pub uninterp spec fn lower_of(s: Seq<char>) -> Seq<char>;

/// Two texts are the same up to letter case when their lowercase forms agree.
pub open spec fn same_fold(a: Seq<char>, b: Seq<char>) -> bool {
    lower_of(a) == lower_of(b)
}

/// The lexicographic order of two texts, char by char, by code point.
pub open spec fn lex_cmp(a: Seq<char>, b: Seq<char>) -> core::cmp::Ordering
    decreases a.len(),
{
    if a.len() == 0 {
        if b.len() == 0 {
            core::cmp::Ordering::Equal
        } else {
            core::cmp::Ordering::Less
        }
    } else if b.len() == 0 {
        core::cmp::Ordering::Greater
    } else if (a[0] as int) < (b[0] as int) {
        core::cmp::Ordering::Less
    } else if (a[0] as int) > (b[0] as int) {
        core::cmp::Ordering::Greater
    } else {
        lex_cmp(a.drop_first(), b.drop_first())
    }
}

/// The order of the two texts' lowercase forms.
pub open spec fn fold_cmp(a: Seq<char>, b: Seq<char>) -> core::cmp::Ordering {
    lex_cmp(lower_of(a), lower_of(b))
}

/// Relies on `Ord for str`: texts are ordered lexicographically by their
/// UTF-8 bytes, which orders them char by char by code point.
#[verifier::external_body]
fn cmp_text(a: &str, b: &str) -> (r: core::cmp::Ordering)
    ensures
        r == lex_cmp(a@, b@),
{
    core::cmp::Ord::cmp(a, b)
}

/// Relies on `str::to_lowercase`: the lowercase mapping of each char of `s`,
/// which depends on the text alone.
#[verifier::external_body]
fn lowercase(s: &str) -> (r: String)
    ensures
        r@ == lower_of(s@),
{
    s.to_lowercase()
}

/// `CiString` is a case-insensitive string: it keeps the text exactly as it
/// was written, and compares, orders and hashes it by its lowercase form, so
/// that it can serve as the key of a map as well as be shown to a user. The
/// lowercase form is computed once, when the value is made, and kept beside
/// the text.
#[derive(Debug)]
pub struct CiString {
    text: String,
    folded: String,
}

impl View for CiString {
    type V = Seq<char>;

    closed spec fn view(&self) -> Seq<char> {
        self.text@
    }
}

impl CiString {
    /// The kept lowercase form is that of the text.
    #[verifier::type_invariant]
    closed spec fn folded_matches(self) -> bool {
        self.folded@ == lower_of(self.text@)
    }

    /// The text that `self` holds.
    pub closed spec fn text_spec(&self) -> String {
        self.text
    }

    /// The text that `self` holds has the view of `self`.
    pub broadcast proof fn lemma_text_view(c: CiString)
        ensures
            #[trigger] c.text_spec()@ == c@,
    {
    }

    /// The empty text.
    pub fn new() -> (r: Self)
        ensures
            r@ == Seq::<char>::empty(),
    {
        CiString::from_string(String::new())
    }

    /// Wraps `s` as it is, with no change of case.
    pub fn from_string(s: String) -> (r: Self)
        ensures
            r@ == s@,
            r.text_spec() == s,
    {
        let folded = lowercase(s.as_str());
        CiString { text: s, folded }
    }

    /// Copies `s` as it is, with no change of case.
    pub fn from_text(s: &str) -> (r: Self)
        ensures
            r@ == s@,
    {
        CiString::from_string(s.to_owned())
    }

    /// Reads `s` as a case-insensitive text: this cannot fail, since any
    /// text is one.
    pub fn parse(s: &str) -> (r: Result<CiString, ()>)
        ensures
            r is Ok,
            r->Ok_0@ == s@,
    {
        Ok(CiString::from_text(s))
    }

    /// Gives the text back as it was written.
    pub fn into_string(self) -> (r: String)
        ensures
            r@ == self@,
            r == self.text_spec(),
    {
        self.text
    }

    /// Borrows the text as it was written.
    pub fn as_str(&self) -> (r: &str)
        ensures
            r@ == self@,
    {
        self.text.as_str()
    }

    /// Borrows the lowercase form of the text.
    pub fn folded_str(&self) -> (r: &str)
        ensures
            r@ == lower_of(self@),
    {
        proof {
            use_type_invariant(self);
        }
        self.folded.as_str()
    }

    /// The text for display: as it was written, never folded.
    pub fn display(&self) -> (r: String)
        ensures
            r@ == self@,
    {
        self.text.clone()
    }

    /// The lowercase form that equality, ordering and hashing go by.
    pub fn folded(&self) -> (r: String)
        ensures
            r@ == lower_of(self@),
    {
        proof {
            use_type_invariant(self);
        }
        self.folded.clone()
    }

    /// Compares the lowercase forms of `self` and `other`. Values that are
    /// equal up to case compare as `Equal`, whatever case they were written
    /// in, so that the order agrees with equality.
    pub fn compare(&self, other: &CiString) -> (r: core::cmp::Ordering)
        ensures
            r == fold_cmp(self@, other@),
    {
        cmp_text(self.folded_str(), other.folded_str())
    }

    /// Whether `self` and `other` are the same text up to letter case.
    pub fn eq_text(&self, other: &str) -> (r: bool)
        ensures
            r == same_fold(self@, other@),
    {
        let b = lowercase(other);
        self.folded() == b
    }
}

impl PartialEq for CiString {
    fn eq(&self, other: &CiString) -> (r: bool) {
        self.folded() == other.folded()
    }
}

impl vstd::std_specs::cmp::PartialEqSpecImpl for CiString {
    open spec fn obeys_eq_spec() -> bool {
        true
    }

    open spec fn eq_spec(&self, other: &CiString) -> bool {
        same_fold(self@, other@)
    }
}

impl PartialEq<String> for CiString {
    fn eq(&self, other: &String) -> (r: bool) {
        self.eq_text(other.as_str())
    }
}

impl vstd::std_specs::cmp::PartialEqSpecImpl<String> for CiString {
    open spec fn obeys_eq_spec() -> bool {
        true
    }

    open spec fn eq_spec(&self, other: &String) -> bool {
        same_fold(self@, other@)
    }
}

impl<'a> PartialEq<&'a str> for CiString {
    fn eq(&self, other: &&'a str) -> (r: bool) {
        self.eq_text(*other)
    }
}

impl<'a> vstd::std_specs::cmp::PartialEqSpecImpl<&'a str> for CiString {
    open spec fn obeys_eq_spec() -> bool {
        true
    }

    open spec fn eq_spec(&self, other: &&'a str) -> bool {
        same_fold(self@, (*other)@)
    }
}

impl PartialOrd for CiString {
    fn partial_cmp(&self, other: &CiString) -> (r: Option<core::cmp::Ordering>) {
        Some(self.compare(other))
    }
}

impl vstd::std_specs::cmp::PartialOrdSpecImpl for CiString {
    open spec fn obeys_partial_cmp_spec() -> bool {
        true
    }

    open spec fn partial_cmp_spec(&self, other: &CiString) -> Option<core::cmp::Ordering> {
        Some(fold_cmp(self@, other@))
    }
}

impl Default for CiString {
    fn default() -> (r: CiString)
        ensures
            r@ == Seq::<char>::empty(),
    {
        CiString::new()
    }
}

impl From<String> for CiString {
    fn from(value: String) -> (r: CiString)
        ensures
            r@ == value@,
            r.text_spec() == value,
    {
        CiString::from_string(value)
    }
}

impl vstd::std_specs::convert::FromSpecImpl<String> for CiString {
    /// The kept lowercase form is known only by its view, so the result is
    /// stated by `from` itself rather than here.
    open spec fn obeys_from_spec() -> bool {
        false
    }

    open spec fn from_spec(v: String) -> CiString {
        vstd::pervasive::arbitrary()
    }
}

impl<'a> From<&'a str> for CiString {
    fn from(value: &'a str) -> (r: CiString)
        ensures
            r@ == value@,
    {
        CiString::from_text(value)
    }
}

impl<'a> vstd::std_specs::convert::FromSpecImpl<&'a str> for CiString {
    /// What `to_owned` makes of a `str` is known only by its view, so the
    /// result is stated by `from` itself rather than here.
    open spec fn obeys_from_spec() -> bool {
        false
    }

    open spec fn from_spec(v: &'a str) -> CiString {
        vstd::pervasive::arbitrary()
    }
}

impl From<CiString> for String {
    fn from(value: CiString) -> (r: String) {
        value.into_string()
    }
}

impl vstd::std_specs::convert::FromSpecImpl<CiString> for String {
    open spec fn obeys_from_spec() -> bool {
        true
    }

    open spec fn from_spec(v: CiString) -> String {
        v.text_spec()
    }
}

impl core::str::FromStr for CiString {
    type Err = ();

    fn from_str(s: &str) -> (r: Result<CiString, ()>)
        ensures
            r is Ok,
            r->Ok_0@ == s@,
    {
        CiString::parse(s)
    }
}

impl AsRef<str> for CiString {
    fn as_ref(&self) -> (r: &str)
        ensures
            r@ == self@,
    {
        self.as_str()
    }
}

impl core::borrow::Borrow<str> for CiString {
    /// Borrows the lowercase form, which hashes and compares as the value
    /// does: a map keyed by `CiString` can be probed with a lowercase `str`.
    fn borrow(&self) -> (r: &str)
        ensures
            <str as View>::view(r) == lower_of(self@),
    {
        self.folded_str()
    }
}

impl core::ops::Deref for CiString {
    type Target = String;

    fn deref(&self) -> (r: &String)
        ensures
            r@ == self@,
    {
        &self.text
    }
}

impl Eq for CiString {
}

impl Clone for CiString {
    fn clone(&self) -> (r: CiString)
        ensures
            r == *self,
    {
        proof {
            use_type_invariant(self);
        }
        CiString { text: self.text.clone(), folded: self.folded.clone() }
    }
}

/// Relies on `Hash for String`: feeds the text into `state`.
#[verifier::external_body]
fn hash_text<H: core::hash::Hasher>(s: &String, state: &mut H) {
    core::hash::Hash::hash(s, state)
}

impl core::hash::Hash for CiString {
    /// Hashes the lowercase form, so that texts equal up to case hash alike.
    fn hash<H: core::hash::Hasher>(&self, state: &mut H) {
        hash_text(&self.folded, state);
    }
}

} // verus!

verus! {

/// `lex_cmp` finds every text equal to itself.
pub proof fn lemma_lex_cmp_reflexive(a: Seq<char>)
    ensures
        lex_cmp(a, a) == core::cmp::Ordering::Equal,
    decreases a.len(),
{
    if a.len() > 0 {
        lemma_lex_cmp_reflexive(a.drop_first());
    }
}

/// `lex_cmp` finds two texts equal only when they are the same.
pub proof fn lemma_lex_cmp_equal_same(a: Seq<char>, b: Seq<char>)
    requires
        lex_cmp(a, b) == core::cmp::Ordering::Equal,
    ensures
        a == b,
    decreases a.len(),
{
    if a.len() > 0 && b.len() > 0 {
        lemma_lex_cmp_equal_same(a.drop_first(), b.drop_first());
        assert(a =~= seq![a[0]] + a.drop_first());
        assert(b =~= seq![b[0]] + b.drop_first());
    }
}

/// Texts that differ only in letter case make equal values, whether the
/// other side is a `CiString`, a `String` or a `str`.
pub proof fn lemma_case_variants_equal(a: CiString, b: CiString, s: String, t: &str)
    requires
        same_fold(a@, b@),
        same_fold(a@, s@),
        same_fold(a@, t@),
    ensures
        a.eq_spec(&b),
        a.eq_spec(&s),
        a.eq_spec(&t),
{
}

/// Equality of values is an equivalence: reflexive, symmetric and
/// transitive.
pub proof fn lemma_equality_is_equivalence(a: CiString, b: CiString, c: CiString)
    ensures
        a.eq_spec(&a),
        a.eq_spec(&b) ==> b.eq_spec(&a),
        a.eq_spec(&b) && b.eq_spec(&c) ==> a.eq_spec(&c),
{
}

/// Equal values have the same lowercase form, the text that `hash` feeds
/// to the hasher.
pub proof fn lemma_equal_values_hash_alike(a: CiString, b: CiString)
    requires
        a.eq_spec(&b),
    ensures
        lower_of(a@) == lower_of(b@),
{
}

/// The order agrees with equality: two values compare as equal exactly when
/// they are equal.
pub proof fn lemma_order_agrees_with_equality(a: CiString, b: CiString)
    ensures
        a.eq_spec(&b) <==> a.partial_cmp_spec(&b) == Some(core::cmp::Ordering::Equal),
{
    if a.eq_spec(&b) {
        lemma_lex_cmp_reflexive(lower_of(a@));
    }
    if a.partial_cmp_spec(&b) == Some(core::cmp::Ordering::Equal) {
        lemma_lex_cmp_equal_same(lower_of(a@), lower_of(b@));
    }
}

/// Turning a text into a `CiString` and back gives the very same text.
pub proof fn lemma_text_round_trip(s: String, c: CiString, r: String)
    requires
        call_ensures(CiString::from_string, (s,), c),
        call_ensures(CiString::into_string, (c,), r),
    ensures
        r == s,
{
}

} // verus!

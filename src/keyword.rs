use crate::argument::{owned_discriminant, Argument, ArgumentView};
use crate::arguments::MAX_ARG_COUNT;
use crate::key::{key_check, validate_key, ErrorKind};
use crate::variant::Variant;
use smartstring::{LazyCompact, SmartString};
use vstd::prelude::*;
use vstd::std_specs::iter::IteratorSpec;
use vstd::string::is_ascii_spec_bytes;
use vstd::utf8::is_ascii_chars;

verus! {

/// The key of a keyword argument: a string that keeps short text inline.
#[verifier::external_body]
#[derive(Debug)]
pub struct Key {
    text: SmartString<LazyCompact>,
}

/// The text that a key holds.
pub uninterp spec fn key_text(k: Key) -> Seq<char>;

/// Relies on `SmartString::from(&str)`: the new string holds the same text.
#[verifier::external_body]
fn key_from_str(s: &str) -> (k: Key)
    ensures
        key_text(k) == s@,
{
    Key { text: SmartString::from(s) }
}

/// Relies on `SmartString::as_str`: a view of the text the string holds.
#[verifier::external_body]
fn key_as_str(k: &Key) -> (r: &str)
    ensures
        r@ == key_text(*k),
{
    k.text.as_str()
}

impl Key {
    /// The text of the key.
    pub fn as_str(&self) -> (r: &str)
        ensures
            r@ == key_text(*self),
    {
        key_as_str(self)
    }
}

/// `i` is where `a` and `b` first differ, or the length of the shorter one
/// when one is a prefix of the other.
pub open spec fn is_first_difference(a: Seq<char>, b: Seq<char>, i: int) -> bool {
    &&& 0 <= i <= a.len()
    &&& i <= b.len()
    &&& forall|j: int| 0 <= j < i ==> a[j] == b[j]
    &&& (i == a.len() || i == b.len() || a[i] != b[i])
}

/// `a` comes before `b` in lexicographic order of their characters.
pub open spec fn key_before(a: Seq<char>, b: Seq<char>) -> bool {
    exists|i: int|
        #[trigger] is_first_difference(a, b, i) && if i < a.len() && i < b.len() {
            a[i] < b[i]
        } else {
            a.len() < b.len()
        }
}

/// How two keys are ordered.
enum KeyOrder {
    Before,
    Same,
    After,
}

/// Compares two ASCII texts character by character.
fn compare_text(a: &str, b: &str) -> (r: KeyOrder)
    requires
        is_ascii_chars(a@),
        is_ascii_chars(b@),
    ensures
        r is Before ==> key_before(a@, b@),
        r is Same <==> a@ == b@,
        r is After ==> key_before(b@, a@),
{
    broadcast use is_ascii_spec_bytes;

    let x = a.as_bytes();
    let y = b.as_bytes();
    proof {
        assert(vstd::string::is_ascii(a));
        assert(vstd::string::is_ascii(b));
        assert(x@ =~= Seq::new(a@.len(), |i| a@.index(i) as u8));
        assert(y@ =~= Seq::new(b@.len(), |i| b@.index(i) as u8));
        assert forall|j: int, k: int| 0 <= j < a@.len() && 0 <= k < b@.len() implies (x@[j] == y@[k]
            <==> a@[j] == b@[k]) && (x@[j] < y@[k] <==> a@[j] < b@[k]) by {
            assert(a@[j] <= '\u{7f}');
            assert(b@[k] <= '\u{7f}');
        }
    }
    let n = if x.len() < y.len() {
        x.len()
    } else {
        y.len()
    };
    let mut i: usize = 0;
    while i < n && x[i] == y[i]
        invariant
            n == x@.len() || n == y@.len(),
            n <= x@.len(),
            n <= y@.len(),
            i <= n,
            x@.len() == a@.len(),
            y@.len() == b@.len(),
            forall|j: int, k: int|
                0 <= j < a@.len() && 0 <= k < b@.len() ==> (#[trigger] x@[j] == #[trigger] y@[k]
                    <==> a@[j] == b@[k]),
            forall|j: int| 0 <= j < i ==> a@[j] == b@[j],
        decreases n - i,
    {
        i = i + 1;
    }
    proof {
        assert(is_first_difference(a@, b@, i as int));
        assert(is_first_difference(b@, a@, i as int));
    }
    if i < n {
        if x[i] < y[i] {
            KeyOrder::Before
        } else {
            KeyOrder::After
        }
    } else if x.len() < y.len() {
        KeyOrder::Before
    } else if y.len() < x.len() {
        KeyOrder::After
    } else {
        proof {
            assert(a@ =~= b@);
        }
        KeyOrder::Same
    }
}

/// A refused keyword insertion: why, and the key and value handed back.
#[derive(Debug)]
pub struct Error<T> {
    key: Key,
    value: T,
    kind: ErrorKind,
}

impl<T> Error<T> {
    /// Why the insertion was refused.
    pub closed spec fn spec_kind(&self) -> ErrorKind {
        self.kind
    }

    /// The text of the key that was refused.
    pub closed spec fn spec_key(&self) -> Seq<char> {
        key_text(self.key)
    }

    /// The value that was handed back.
    pub closed spec fn spec_value(&self) -> T {
        self.value
    }

    /// Why the insertion was refused.
    pub fn error_kind(&self) -> (r: ErrorKind)
        ensures
            r == self.spec_kind(),
    {
        self.kind
    }

    /// The key and the value that were handed back.
    pub fn into_inner(self) -> (r: (Key, T))
        ensures
            key_text(r.0) == self.spec_key(),
            r.1 == self.spec_value(),
    {
        (self.key, self.value)
    }
}

/// The entries of a keyword table, each key as its text.
pub open spec fn entry_views<'a>(s: Seq<(Key, Argument<'a>)>) -> Seq<(Seq<char>, ArgumentView)> {
    s.map_values(|e: (Key, Argument<'a>)| (key_text(e.0), e.1@))
}

/// The keys of `s`, in order.
pub open spec fn keys_of(s: Seq<(Seq<char>, ArgumentView)>) -> Seq<Seq<char>> {
    s.map_values(|e: (Seq<char>, ArgumentView)| e.0)
}

/// The entries form a keyword table: at most [`MAX_ARG_COUNT`] of them, each
/// key valid, the keys in strictly increasing order.
pub open spec fn is_keyword_table(s: Seq<(Seq<char>, ArgumentView)>) -> bool {
    &&& s.len() <= MAX_ARG_COUNT
    &&& forall|i: int| 0 <= i < s.len() ==> key_check(#[trigger] s[i].0) is Ok
    &&& forall|i: int, j: int| 0 <= i < j < s.len() ==> key_before((#[trigger] s[i]).0, (#[trigger] s[j]).0)
}

/// Builds a table of keyword arguments, kept in key order, with at most
/// [`MAX_ARG_COUNT`] entries and each key at most once.
#[derive(Debug)]
pub struct KeywordArgumentsBuilder<'a> {
    table: Vec<(Key, Argument<'a>)>,
}

impl<'a> View for KeywordArgumentsBuilder<'a> {
    type V = Seq<(Seq<char>, ArgumentView)>;

    closed spec fn view(&self) -> Seq<(Seq<char>, ArgumentView)> {
        entry_views(self.table@)
    }
}

/// A finished table of keyword arguments, in key order.
#[derive(Debug)]
pub struct KeywordArguments<'a> {
    table: Vec<(Key, Argument<'a>)>,
}

impl<'a> View for KeywordArguments<'a> {
    type V = Seq<(Seq<char>, ArgumentView)>;

    closed spec fn view(&self) -> Seq<(Seq<char>, ArgumentView)> {
        entry_views(self.table@)
    }
}

impl<'a> KeywordArguments<'a> {
    /// The number of entries.
    pub fn len(&self) -> (r: usize)
        ensures
            r == self@.len(),
    {
        self.table.len()
    }

    /// The entries, in key order.
    pub fn as_slice(&self) -> (r: &[(Key, Argument<'a>)])
        ensures
            entry_views(r@) == self@,
    {
        self.table.as_slice()
    }
}

impl<'a> KeywordArgumentsBuilder<'a> {
    /// The entries form a keyword table.
    pub open spec fn wf(&self) -> bool {
        is_keyword_table(self@)
    }

    /// An empty builder.
    pub fn new() -> (r: KeywordArgumentsBuilder<'a>)
        ensures
            r@ == Seq::<(Seq<char>, ArgumentView)>::empty(),
            r.wf(),
    {
        KeywordArgumentsBuilder { table: Vec::new() }
    }

    /// The number of entries.
    pub fn len(&self) -> (r: usize)
        ensures
            r == self@.len(),
    {
        self.table.len()
    }

    /// The builder holds [`MAX_ARG_COUNT`] entries and takes no more.
    pub fn is_full(&self) -> (r: bool)
        ensures
            r == (self@.len() >= MAX_ARG_COUNT),
    {
        self.len() >= MAX_ARG_COUNT
    }

    /// Where the entry for `key` stands, if there is one.
    fn position(&self, key: &str) -> (r: Option<usize>)
        requires
            self.wf(),
            key_check(key@) is Ok,
        ensures
            r is Some ==> r->0 < self@.len() && self@[r->0 as int].0 == key@ && keys_of(self@).contains(key@),
            r is None ==> !keys_of(self@).contains(key@),
    {
        let mut i: usize = 0;
        while i < self.table.len()
            invariant
                self.wf(),
                key_check(key@) is Ok,
                i <= self@.len(),
                forall|j: int| 0 <= j < i ==> (#[trigger] self@[j]).0 != key@,
            decreases self@.len() - i,
        {
            let k = key_as_str(&self.table[i].0);
            proof {
                assert(self@[i as int].0 == key_text(self.table@[i as int].0));
                assert(key_check(self@[i as int].0) is Ok);
            }
            match compare_text(k, key) {
                KeyOrder::Same => {
                    proof {
                        assert(keys_of(self@)[i as int] == key@);
                    }
                    return Some(i);
                },
                _ => {},
            }
            i = i + 1;
        }
        proof {
            if keys_of(self@).contains(key@) {
                let j = choose|j: int| 0 <= j < self@.len() && keys_of(self@)[j] == key@;
                assert(self@[j].0 == key@);
            }
        }
        None
    }

    /// Whether the builder has an entry for `key`, or `None` when `key` is
    /// not a valid key.
    pub fn contains_key(&self, key: &str) -> (r: Option<bool>)
        requires
            self.wf(),
        ensures
            r is None <==> key_check(key@) is Err,
            r is Some ==> r->0 == keys_of(self@).contains(key@),
    {
        match validate_key(key) {
            Ok(()) => Some(self.position(key).is_some()),
            Err(_) => None,
        }
    }

    /// The keys, in order.
    pub fn keys(&self) -> (r: Vec<&Key>)
        ensures
            r@.len() == self@.len(),
            forall|i: int| 0 <= i < r@.len() ==> key_text(*#[trigger] r@[i]) == self@[i].0,
    {
        let mut r: Vec<&Key> = Vec::new();
        let mut i: usize = 0;
        while i < self.table.len()
            invariant
                i <= self@.len(),
                r@.len() == i,
                forall|j: int| 0 <= j < i ==> key_text(*#[trigger] r@[j]) == self@[j].0,
            decreases self@.len() - i,
        {
            r.push(&self.table[i].0);
            i = i + 1;
        }
        r
    }

    /// The entries, in key order.
    pub fn iter(&self) -> (r: core::slice::Iter<'_, (Key, Argument<'a>)>)
        ensures
            r.remaining().len() == self@.len(),
            forall|i: int|
                0 <= i < self@.len() ==> key_text((#[trigger] r.remaining()[i]).0) == self@[i].0
                    && r.remaining()[i].1@ == self@[i].1,
    {
        self.table.as_slice().iter()
    }

    /// Why `key` cannot take a new entry, if it cannot: an invalid key, a
    /// full builder, or a key already present, in that order.
    fn refusal(&self, key: &str) -> (r: Option<ErrorKind>)
        requires
            self.wf(),
        ensures
            r == insert_refusal(self@, key@),
    {
        match validate_key(key) {
            Err(kind) => Some(kind),
            Ok(()) => {
                if self.is_full() {
                    Some(ErrorKind::MaxArguments)
                } else if self.position(key).is_some() {
                    Some(ErrorKind::KeyExists)
                } else {
                    None
                }
            },
        }
    }

    /// Puts a new entry for `key`, which is valid and absent, in its place in
    /// key order.
    fn insert_new(&mut self, key: &str, arg: Argument<'a>)
        requires
            old(self).wf(),
            insert_refusal(old(self)@, key@) is None,
        ensures
            final(self).wf(),
            final(self)@ == sorted_insert(old(self)@, key@, arg@),
    {
        let mut p: usize = 0;
        let mut found = false;
        while !found && p < self.table.len()
            invariant
                old(self).wf(),
                *self == *old(self),
                insert_refusal(self@, key@) is None,
                p <= self@.len(),
                found ==> p < self@.len() && key_before(key@, self@[p as int].0),
                forall|j: int| 0 <= j < p ==> key_before((#[trigger] self@[j]).0, key@),
            decreases self@.len() - p, if found { 0int } else { 1int },
        {
            let k = key_as_str(&self.table[p].0);
            proof {
                assert(self@[p as int].0 == key_text(self.table@[p as int].0));
                assert(key_check(self@[p as int].0) is Ok);
            }
            match compare_text(k, key) {
                KeyOrder::Before => {
                    p = p + 1;
                },
                KeyOrder::Same => {
                    proof {
                        assert(keys_of(self@)[p as int] == key@);
                    }
                    found = true;
                },
                KeyOrder::After => {
                    found = true;
                },
            }
        }
        let ghost before = self@;
        proof {
            assert(!keys_of(before).contains(key@));
            if p < before.len() {
                assert(keys_of(before)[p as int] == before[p as int].0);
            }
        }
        self.table.insert(p, (key_from_str(key), arg));
        proof {
            let e = (key@, arg@);
            assert(self@ =~= before.insert(p as int, e));
            lemma_insert_keeps_table(before, key@, arg@, p as int);
        }
    }

    /// Inserts an owning entry for `value` under `key`. It is refused, with
    /// the key and value handed back, when the key is invalid, the builder is
    /// full, or the key is already present.
    pub fn insert_owned<T: Variant>(&mut self, key: &str, value: T) -> (r: Result<(), Error<T>>)
        requires
            old(self).wf(),
        ensures
            final(self).wf(),
            match r {
                Ok(()) => insert_refusal(old(self)@, key@) is None && final(self)@ == sorted_insert(
                    old(self)@,
                    key@,
                    ArgumentView { discriminant: owned_discriminant::<T>(), content: value.datum() },
                ),
                Err(e) => insert_refusal(old(self)@, key@) == Some(e.spec_kind()) && e.spec_key()
                    == key@ && e.spec_value() == value && final(self)@ == old(self)@,
            },
    {
        match self.refusal(key) {
            Some(kind) => Err(Error { key: key_from_str(key), value, kind }),
            None => {
                self.insert_new(key, Argument::new_owned(value));
                Ok(())
            },
        }
    }

    /// Inserts a borrowing entry for `value` under `key`. It is refused, with
    /// the key handed back, when the key is invalid, the builder is full, or
    /// the key is already present.
    pub fn insert_borrowed<T: Variant>(&mut self, key: &str, value: &'a T) -> (r: Result<(), Error<()>>)
        requires
            old(self).wf(),
        ensures
            final(self).wf(),
            match r {
                Ok(()) => insert_refusal(old(self)@, key@) is None && final(self)@ == sorted_insert(
                    old(self)@,
                    key@,
                    ArgumentView::borrowing(value.datum()),
                ),
                Err(e) => insert_refusal(old(self)@, key@) == Some(e.spec_kind()) && e.spec_key()
                    == key@ && final(self)@ == old(self)@,
            },
    {
        match self.refusal(key) {
            Some(kind) => Err(Error { key: key_from_str(key), value: (), kind }),
            None => {
                self.insert_new(key, Argument::new_borrowed(value));
                Ok(())
            },
        }
    }

    /// Inserts `arg` under `key`. It is refused, with the key and the
    /// argument handed back, when the key is invalid, the builder is full, or
    /// the key is already present.
    pub fn insert_argument(&mut self, key: &str, arg: Argument<'a>) -> (r: Result<(), Error<Argument<'a>>>)
        requires
            old(self).wf(),
        ensures
            final(self).wf(),
            match r {
                Ok(()) => insert_refusal(old(self)@, key@) is None && final(self)@ == sorted_insert(
                    old(self)@,
                    key@,
                    arg@,
                ),
                Err(e) => insert_refusal(old(self)@, key@) == Some(e.spec_kind()) && e.spec_key()
                    == key@ && e.spec_value() == arg && final(self)@ == old(self)@,
            },
    {
        match self.refusal(key) {
            Some(kind) => Err(Error { key: key_from_str(key), value: arg, kind }),
            None => {
                self.insert_new(key, arg);
                Ok(())
            },
        }
    }

    /// Removes and returns the entry for `key`. It fails when the key is
    /// invalid, or when there is no entry for it.
    pub fn remove(&mut self, key: &str) -> (r: Result<Argument<'a>, ErrorKind>)
        requires
            old(self).wf(),
        ensures
            final(self).wf(),
            match r {
                Ok(a) => key_check(key@) is Ok && exists|i: int|
                    0 <= i < old(self)@.len() && #[trigger] old(self)@[i].0 == key@ && a@ == old(self)@[i].1
                        && final(self)@ == old(self)@.remove(i),
                Err(kind) => final(self)@ == old(self)@ && match key_check(key@) {
                    Err(k) => kind == k,
                    Ok(()) => kind == ErrorKind::KeyDoesNotExist && !keys_of(old(self)@).contains(key@),
                },
            },
    {
        match validate_key(key) {
            Err(kind) => Err(kind),
            Ok(()) => match self.position(key) {
                None => Err(ErrorKind::KeyDoesNotExist),
                Some(i) => {
                    let ghost before = self@;
                    let (_, a) = self.table.remove(i);
                    proof {
                        assert(self@ =~= before.remove(i as int));
                        lemma_remove_keeps_table(before, i as int);
                    }
                    Ok(a)
                },
            },
        }
    }

    /// The finished table, with the entries in key order.
    pub fn build(self) -> (r: KeywordArguments<'a>)
        ensures
            r@ == self@,
    {
        KeywordArguments { table: self.table }
    }
}

/// Why a new entry under `key` is refused: an invalid key, a full table, or
/// a key already present, in that order; or nothing.
pub open spec fn insert_refusal(s: Seq<(Seq<char>, ArgumentView)>, key: Seq<char>) -> Option<ErrorKind> {
    match key_check(key) {
        Err(kind) => Some(kind),
        Ok(()) => if s.len() >= MAX_ARG_COUNT {
            Some(ErrorKind::MaxArguments)
        } else if keys_of(s).contains(key) {
            Some(ErrorKind::KeyExists)
        } else {
            None
        },
    }
}

/// The entries `s` with `(key, v)` placed before the first key that does not
/// come before `key`.
pub open spec fn sorted_insert(s: Seq<(Seq<char>, ArgumentView)>, key: Seq<char>, v: ArgumentView) -> Seq<(Seq<char>, ArgumentView)> {
    s.insert(insert_index(s, key), (key, v))
}

/// The number of leading entries of `s` whose keys come before `key`.
pub open spec fn insert_index(s: Seq<(Seq<char>, ArgumentView)>, key: Seq<char>) -> int
    decreases s.len(),
{
    if s.len() == 0 || !key_before(s[0].0, key) {
        0
    } else {
        1 + insert_index(s.drop_first(), key)
    }
}

/// No key comes before itself.
pub proof fn lemma_key_before_irreflexive(a: Seq<char>)
    ensures
        !key_before(a, a),
{
    if key_before(a, a) {
        let i = choose|i: int|
            #[trigger] is_first_difference(a, a, i) && if i < a.len() && i < a.len() {
                a[i] < a[i]
            } else {
                a.len() < a.len()
            };
        assert(i == a.len());
    }
}

/// The key order is transitive.
pub proof fn lemma_key_before_transitive(a: Seq<char>, b: Seq<char>, c: Seq<char>)
    requires
        key_before(a, b),
        key_before(b, c),
    ensures
        key_before(a, c),
{
    let i = choose|i: int|
        #[trigger] is_first_difference(a, b, i) && if i < a.len() && i < b.len() {
            a[i] < b[i]
        } else {
            a.len() < b.len()
        };
    let k = choose|k: int|
        #[trigger] is_first_difference(b, c, k) && if k < b.len() && k < c.len() {
            b[k] < c[k]
        } else {
            b.len() < c.len()
        };
    let m = if i <= k {
        i
    } else {
        k
    };
    assert(forall|j: int| 0 <= j < m ==> a[j] == b[j] && b[j] == c[j]);
    assert(is_first_difference(a, c, m));
}

proof fn lemma_insert_keeps_table(
    s: Seq<(Seq<char>, ArgumentView)>,
    key: Seq<char>,
    v: ArgumentView,
    p: int,
)
    requires
        is_keyword_table(s),
        insert_refusal(s, key) is None,
        0 <= p <= s.len(),
        forall|j: int| 0 <= j < p ==> key_before((#[trigger] s[j]).0, key),
        p < s.len() ==> key_before(key, s[p].0),
    ensures
        insert_index(s, key) == p,
        is_keyword_table(s.insert(p, (key, v))),
    decreases s.len(),
{
    let t = s.insert(p, (key, v));
    assert forall|j: int| p < j < s.len() implies key_before(key, (#[trigger] s[j]).0) by {
        lemma_key_before_transitive(key, s[p].0, s[j].0);
    }
    assert forall|i: int, j: int| 0 <= i < j < t.len() implies key_before(
        (#[trigger] t[i]).0,
        (#[trigger] t[j]).0,
    ) by {
        if j < p {
        } else if j == p {
        } else if i < p {
            lemma_key_before_transitive(s[i].0, key, s[j - 1].0);
        } else if i == p {
        } else {
        }
    }
    assert forall|i: int| 0 <= i < t.len() implies key_check(#[trigger] t[i].0) is Ok by {
        if i < p {
        } else if i == p {
        } else {
            assert(t[i] == s[i - 1]);
        }
    }
    if p == 0 {
        if s.len() > 0 {
            lemma_key_before_irreflexive(key);
            if key_before(s[0].0, key) {
                lemma_key_before_transitive(key, s[0].0, key);
            }
        }
    } else {
        let r = s.drop_first();
        assert forall|i: int, j: int| 0 <= i < j < r.len() implies key_before(
            (#[trigger] r[i]).0,
            (#[trigger] r[j]).0,
        ) by {
            assert(r[i] == s[i + 1]);
            assert(r[j] == s[j + 1]);
        }
        assert forall|i: int| 0 <= i < r.len() implies key_check(#[trigger] r[i].0) is Ok by {
            assert(r[i] == s[i + 1]);
        }
        assert(!keys_of(r).contains(key)) by {
            if keys_of(r).contains(key) {
                let j = choose|j: int| 0 <= j < keys_of(r).len() && keys_of(r)[j] == key;
                assert(keys_of(s)[j + 1] == key);
            }
        }
        assert forall|j: int| 0 <= j < p - 1 implies key_before((#[trigger] r[j]).0, key) by {
            assert(r[j] == s[j + 1]);
        }
        lemma_insert_keeps_table(r, key, v, p - 1);
    }
}

proof fn lemma_remove_keeps_table(s: Seq<(Seq<char>, ArgumentView)>, i: int)
    requires
        is_keyword_table(s),
        0 <= i < s.len(),
    ensures
        is_keyword_table(s.remove(i)),
{
    let t = s.remove(i);
    assert forall|a: int, b: int| 0 <= a < b < t.len() implies key_before(
        (#[trigger] t[a]).0,
        (#[trigger] t[b]).0,
    ) by {
        let a0 = if a < i {
            a
        } else {
            a + 1
        };
        let b0 = if b < i {
            b
        } else {
            b + 1
        };
        assert(t[a] == s[a0]);
        assert(t[b] == s[b0]);
    }
    assert forall|a: int| 0 <= a < t.len() implies key_check(#[trigger] t[a].0) is Ok by {
        let a0 = if a < i {
            a
        } else {
            a + 1
        };
        assert(t[a] == s[a0]);
    }
}

} // verus!

use vstd::prelude::*;
use vstd::utf8::encode_utf8;
use vstd::utf8::encode_utf8_decode_utf8;
use vstd::string::StringSliceAdditionalSpecFns;

verus! {

/// Strict lexicographic order on byte strings.
pub open spec fn bytes_less(a: Seq<u8>, b: Seq<u8>) -> bool {
    exists|k: int|
        #![trigger a.take(k)]
        0 <= k <= a.len() && k <= b.len() && a.take(k) == b.take(k) && k < b.len() && (k == a.len()
            || a[k] < b[k])
}

/// The order in which keys are listed: that of their UTF-8 encodings, byte by byte.
pub open spec fn key_less(a: Seq<char>, b: Seq<char>) -> bool {
    bytes_less(encode_utf8(a), encode_utf8(b))
}

/// The order is strict: no key comes before itself, and of two keys at most one comes
/// before the other.
pub proof fn lemma_key_less_asymmetric(a: Seq<char>, b: Seq<char>)
    requires
        key_less(a, b),
    ensures
        !key_less(b, a),
        a != b,
{
    let x = encode_utf8(a);
    let y = encode_utf8(b);
    let k = choose|k: int|
        #![trigger x.take(k)]
        0 <= k <= x.len() && k <= y.len() && x.take(k) == y.take(k) && k < y.len() && (k == x.len()
            || x[k] < y[k]);
    if key_less(b, a) {
        let j = choose|j: int|
            #![trigger y.take(j)]
            0 <= j <= y.len() && j <= x.len() && y.take(j) == x.take(j) && j < x.len() && (j
                == y.len() || y[j] < x[j]);
        if j < k {
            assert(x.take(k)[j] == y.take(k)[j]);
        } else if k < j {
            assert(y.take(j)[k] == x.take(j)[k]);
        }
    }
}

/// The order is transitive.
pub proof fn lemma_key_less_transitive(a: Seq<char>, b: Seq<char>, c: Seq<char>)
    requires
        key_less(a, b),
        key_less(b, c),
    ensures
        key_less(a, c),
{
    let x = encode_utf8(a);
    let y = encode_utf8(b);
    let z = encode_utf8(c);
    let k = choose|k: int|
        #![trigger x.take(k)]
        0 <= k <= x.len() && k <= y.len() && x.take(k) == y.take(k) && k < y.len() && (k == x.len()
            || x[k] < y[k]);
    let j = choose|j: int|
        #![trigger y.take(j)]
        0 <= j <= y.len() && j <= z.len() && y.take(j) == z.take(j) && j < z.len() && (j == y.len()
            || y[j] < z[j]);
    let m = if k <= j {
        k
    } else {
        j
    };
    assert(x.take(m) =~= z.take(m)) by {
        assert forall|i: int| 0 <= i < m implies #[trigger] x[i] == z[i] by {
            assert(x.take(k)[i] == y.take(k)[i]);
            assert(y.take(j)[i] == z.take(j)[i]);
        }
    }
    if k < j {
        assert(y.take(j)[k] == z.take(j)[k]);
    } else if j < k {
        assert(x.take(k)[j] == y.take(k)[j]);
    }
    assert(0 <= m <= x.len() && m <= z.len() && x.take(m) == z.take(m) && m < z.len() && (m
        == x.len() || x[m] < z[m]));
}

/// Where `a` stands relative to `b`: -1 before it, 0 equal to it, 1 behind it.
pub fn key_order(a: &str, b: &str) -> (out: i8)
    ensures
        out == -1 || out == 0 || out == 1,
        (out == -1) == key_less(a@, b@),
        (out == 0) == (a@ == b@),
        (out == 1) == key_less(b@, a@),
{
    let x = a.as_bytes();
    let y = b.as_bytes();
    let mut i: usize = 0;
    while i < x.len() && i < y.len()
        invariant
            i <= x@.len(),
            i <= y@.len(),
            x@ == encode_utf8(a@),
            y@ == encode_utf8(b@),
            x@.take(i as int) == y@.take(i as int),
        decreases x@.len() - i,
    {
        if x[i] < y[i] {
            proof {
                lemma_key_less_asymmetric(a@, b@);
            }
            return -1;
        }
        if x[i] > y[i] {
            proof {
                assert(y@.take(i as int) == x@.take(i as int));
                lemma_key_less_asymmetric(b@, a@);
            }
            return 1;
        }
        assert(x@.take(i + 1) =~= y@.take(i + 1)) by {
            assert forall|k: int| 0 <= k < i + 1 implies #[trigger] x@[k] == y@[k] by {
                if k < i {
                    assert(x@.take(i as int)[k] == y@.take(i as int)[k]);
                }
            }
        }
        i += 1;
    }
    if x.len() < y.len() {
        proof {
            lemma_key_less_asymmetric(a@, b@);
        }
        -1
    } else if x.len() > y.len() {
        proof {
            assert(y@.take(i as int) == x@.take(i as int));
            lemma_key_less_asymmetric(b@, a@);
        }
        1
    } else {
        proof {
            assert(x@.take(i as int) =~= x@);
            assert(y@.take(i as int) =~= y@);
            encode_utf8_decode_utf8(a@);
            encode_utf8_decode_utf8(b@);
            if key_less(a@, b@) {
                lemma_key_less_asymmetric(a@, b@);
            }
        }
        0
    }
}

/// The texts of a list of entries, in order.
pub open spec fn pairs(entries: Seq<(String, String)>) -> Seq<(Seq<char>, Seq<char>)> {
    Seq::new(entries.len(), |i: int| (entries[i].0@, entries[i].1@))
}

/// Whether the keys of a list stand in strictly rising order.
pub open spec fn sorted(list: Seq<(Seq<char>, Seq<char>)>) -> bool {
    forall|i: int, j: int| 0 <= i < j < list.len() ==> key_less(#[trigger] list[i].0, #[trigger] list[j].0)
}

/// A sorted list with `key` set to `value`: in place of the entry with that key if
/// there is one, at the place that the order gives it otherwise.
pub open spec fn put(list: Seq<(Seq<char>, Seq<char>)>, key: Seq<char>, value: Seq<char>) -> Seq<
    (Seq<char>, Seq<char>),
>
    decreases list.len(),
{
    if list.len() == 0 {
        seq![(key, value)]
    } else if list[0].0 == key {
        seq![(key, value)] + list.drop_first()
    } else if key_less(key, list[0].0) {
        seq![(key, value)] + list
    } else {
        seq![list[0]] + put(list.drop_first(), key, value)
    }
}

/// A sorted list with every entry of `extra` put into it, one after the other: of two
/// values for one key the later one stays.
pub open spec fn put_all(
    list: Seq<(Seq<char>, Seq<char>)>,
    extra: Seq<(Seq<char>, Seq<char>)>,
) -> Seq<(Seq<char>, Seq<char>)>
    decreases extra.len(),
{
    if extra.len() == 0 {
        list
    } else {
        put_all(put(list, extra[0].0, extra[0].1), extra.drop_first())
    }
}

/// Putting an entry into a sorted list leaves it sorted, and every key of the result
/// is the new key or a key that was there.
pub proof fn lemma_put_sorted(list: Seq<(Seq<char>, Seq<char>)>, key: Seq<char>, value: Seq<char>)
    requires
        sorted(list),
        forall|i: int| 0 <= i < list.len() ==> #[trigger] list[i].0 == key || key_less(list[i].0, key)
            || key_less(key, list[i].0),
    ensures
        sorted(put(list, key, value)),
        forall|i: int|
            0 <= i < put(list, key, value).len() ==> (#[trigger] put(list, key, value)[i]).0 == key
                || exists|j: int| 0 <= j < list.len() && list[j].0 == put(list, key, value)[i].0,
    decreases list.len(),
{
    let out = put(list, key, value);
    if list.len() == 0 {
    } else if list[0].0 == key {
        assert forall|i: int, j: int| 0 <= i < j < out.len() implies key_less(
            #[trigger] out[i].0,
            #[trigger] out[j].0,
        ) by {
            if i == 0 {
                assert(key_less(list[0].0, list[j].0));
            } else {
                assert(key_less(list[i].0, list[j].0));
            }
        }
        assert forall|i: int| 0 <= i < out.len() implies (#[trigger] out[i]).0 == key || exists|
            j: int,
        | 0 <= j < list.len() && list[j].0 == out[i].0 by {
            if i > 0 {
                assert(list[i].0 == out[i].0);
            }
        }
    } else if key_less(key, list[0].0) {
        assert forall|i: int, j: int| 0 <= i < j < out.len() implies key_less(
            #[trigger] out[i].0,
            #[trigger] out[j].0,
        ) by {
            if i == 0 {
                if j > 1 {
                    assert(key_less(list[0].0, list[j - 1].0));
                    lemma_key_less_transitive(key, list[0].0, list[j - 1].0);
                }
            } else {
                assert(key_less(list[i - 1].0, list[j - 1].0));
            }
        }
        assert forall|i: int| 0 <= i < out.len() implies (#[trigger] out[i]).0 == key || exists|
            j: int,
        | 0 <= j < list.len() && list[j].0 == out[i].0 by {
            if i > 0 {
                assert(list[i - 1].0 == out[i].0);
            }
        }
    } else {
        let rest = list.drop_first();
        assert(sorted(rest)) by {
            assert forall|i: int, j: int| 0 <= i < j < rest.len() implies key_less(
                #[trigger] rest[i].0,
                #[trigger] rest[j].0,
            ) by {
                assert(key_less(list[i + 1].0, list[j + 1].0));
            }
        }
        assert forall|i: int| 0 <= i < rest.len() implies #[trigger] rest[i].0 == key || key_less(
            rest[i].0,
            key,
        ) || key_less(key, rest[i].0) by {
            assert(list[i + 1].0 == rest[i].0);
        }
        lemma_put_sorted(rest, key, value);
        let tail = put(rest, key, value);
        assert(key_less(list[0].0, key));
        assert forall|i: int, j: int| 0 <= i < j < out.len() implies key_less(
            #[trigger] out[i].0,
            #[trigger] out[j].0,
        ) by {
            if i == 0 {
                let t = tail[j - 1];
                if t.0 == key {
                } else {
                    let w = choose|w: int| 0 <= w < rest.len() && rest[w].0 == t.0;
                    assert(key_less(list[0].0, list[w + 1].0));
                }
            } else {
                assert(key_less(tail[i - 1].0, tail[j - 1].0));
            }
        }
        assert forall|i: int| 0 <= i < out.len() implies (#[trigger] out[i]).0 == key || exists|
            j: int,
        | 0 <= j < list.len() && list[j].0 == out[i].0 by {
            if i == 0 {
                assert(list[0].0 == out[0].0);
            } else {
                let t = tail[i - 1];
                if t.0 != key {
                    let w = choose|w: int| 0 <= w < rest.len() && rest[w].0 == t.0;
                    assert(list[w + 1].0 == out[i].0);
                }
            }
        }
    }
}

/// Of two keys, one comes before the other or they are the same.
pub proof fn lemma_key_order_total(a: Seq<char>, b: Seq<char>)
    ensures
        a == b || key_less(a, b) || key_less(b, a),
{
    let x = encode_utf8(a);
    let y = encode_utf8(b);
    encode_utf8_decode_utf8(a);
    encode_utf8_decode_utf8(b);
    if x != y {
        assert(x.take(0) =~= y.take(0));
        lemma_bytes_differ(x, y, 0);
    }
}

/// Two different byte strings that agree on their first `from` bytes stand in order.
pub proof fn lemma_bytes_differ(x: Seq<u8>, y: Seq<u8>, from: int)
    requires
        x != y,
        0 <= from <= x.len(),
        from <= y.len(),
        x.take(from) == y.take(from),
    ensures
        bytes_less(x, y) || bytes_less(y, x),
    decreases x.len() - from,
{
    if from == x.len() {
        if from == y.len() {
            assert(x.take(from) =~= x);
            assert(y.take(from) =~= y);
        } else {
            assert(y.take(from) == x.take(from));
        }
    } else if from == y.len() {
        assert(y.take(from) == x.take(from));
    } else if x[from] < y[from] {
    } else if y[from] < x[from] {
        assert(y.take(from) == x.take(from));
    } else {
        assert(x.take(from + 1) =~= y.take(from + 1)) by {
            assert forall|k: int| 0 <= k < from + 1 implies #[trigger] x[k] == y[k] by {
                if k < from {
                    assert(x.take(from)[k] == x[k]);
                    assert(y.take(from)[k] == y[k]);
                } else {
                    assert(k == from);
                    assert(!(x[from] < y[from]) && !(y[from] < x[from]));
                }
            }
        }
        lemma_bytes_differ(x, y, from + 1);
    }
}

/// Sets `key` to `value` in a list whose keys stand in rising order.
pub fn put_entry(entries: &mut Vec<(String, String)>, key: String, value: String)
    requires
        sorted(pairs(old(entries)@)),
    ensures
        pairs(final(entries)@) == put(pairs(old(entries)@), key@, value@),
        sorted(pairs(final(entries)@)),
{
    let ghost before = pairs(entries@);
    let mut i: usize = 0;
    let mut place: Option<(usize, bool)> = None;
    while i < entries.len() && place.is_none()
        invariant
            i <= entries@.len(),
            entries@ == old(entries)@,
            before == pairs(entries@),
            place is None ==> forall|k: int| 0 <= k < i ==> key_less(#[trigger] before[k].0, key@),
            place is Some ==> {
                &&& place->Some_0.0 == i
                &&& i < before.len()
                &&& forall|k: int| 0 <= k < i ==> key_less(#[trigger] before[k].0, key@)
                &&& place->Some_0.1 ==> before[i as int].0 == key@
                &&& !place->Some_0.1 ==> key_less(key@, before[i as int].0)
            },
        decreases entries@.len() - i + (if place is None { 1int } else { 0int }),
    {
        let order = key_order(entries[i].0.as_str(), key.as_str());
        if order == 0 {
            place = Some((i, true));
        } else if order == 1 {
            place = Some((i, false));
        } else {
            i += 1;
        }
    }
    proof {
        lemma_put_prefix(before, key@, value@, i as int);
        assert forall|k: int| 0 <= k < before.len() implies #[trigger] before[k].0 == key@
            || key_less(before[k].0, key@) || key_less(key@, before[k].0) by {
            lemma_key_order_total(before[k].0, key@);
        }
        lemma_put_sorted(before, key@, value@);
    }
    match place {
        Some((at, true)) => {
            entries.set(at, (key, value));
            assert(pairs(entries@) =~= before.take(at as int) + (seq![(key@, value@)] + before.skip(
                at as int,
            ).drop_first()));
        },
        Some((at, false)) => {
            entries.insert(at, (key, value));
            assert(pairs(entries@) =~= before.take(at as int) + (seq![(key@, value@)] + before.skip(
                at as int,
            )));
        },
        None => {
            entries.push((key, value));
            assert(before.skip(i as int) =~= Seq::empty());
            assert(pairs(entries@) =~= before.take(i as int) + seq![(key@, value@)]);
        },
    }
}

/// When the first `n` keys of a sorted list all come before `key`, the new entry goes
/// somewhere behind them.
pub proof fn lemma_put_prefix(
    list: Seq<(Seq<char>, Seq<char>)>,
    key: Seq<char>,
    value: Seq<char>,
    n: int,
)
    requires
        0 <= n <= list.len(),
        forall|k: int| 0 <= k < n ==> key_less(#[trigger] list[k].0, key),
    ensures
        put(list, key, value) == list.take(n) + put(list.skip(n), key, value),
    decreases n,
{
    if n == 0 {
        assert(list.take(0) =~= Seq::empty());
        assert(list.skip(0) =~= list);
        assert(Seq::<(Seq<char>, Seq<char>)>::empty() + put(list, key, value) =~= put(
            list,
            key,
            value,
        ));
    } else {
        lemma_key_less_asymmetric(list[0].0, key);
        let rest = list.drop_first();
        assert forall|k: int| 0 <= k < n - 1 implies key_less(#[trigger] rest[k].0, key) by {
            assert(rest[k] == list[k + 1]);
        }
        lemma_put_prefix(rest, key, value, n - 1);
        assert(rest.skip(n - 1) =~= list.skip(n));
        assert(seq![list[0]] + rest.take(n - 1) =~= list.take(n));
        assert(seq![list[0]] + (rest.take(n - 1) + put(rest.skip(n - 1), key, value)) =~= (seq![
            list[0],
        ] + rest.take(n - 1)) + put(rest.skip(n - 1), key, value));
    }
}

/// What the header shows beside the tabs: facts about the connector, and the keys
/// that do something on the current screen. Both are listed in the order of their keys.
pub struct InfoSheet {
    pub info: Vec<(String, String)>,
    pub key_bindings: Vec<(String, String)>,
}

/// What an info sheet stands for.
pub struct InfoSheetModel {
    pub info: Seq<(Seq<char>, Seq<char>)>,
    pub key_bindings: Seq<(Seq<char>, Seq<char>)>,
}

impl View for InfoSheet {
    type V = InfoSheetModel;

    open spec fn view(&self) -> InfoSheetModel {
        InfoSheetModel { info: pairs(self.info@), key_bindings: pairs(self.key_bindings@) }
    }
}

impl Default for InfoSheet {
    fn default() -> (out: InfoSheet)
        ensures
            out.wf(),
            out@ == (InfoSheetModel { info: Seq::empty(), key_bindings: Seq::empty() }),
    {
        let out = InfoSheet { info: Vec::new(), key_bindings: Vec::new() };
        assert(out@.info =~= Seq::empty());
        assert(out@.key_bindings =~= Seq::empty());
        out
    }
}

/// Copies a list of entries.
pub fn copy_entries(entries: &Vec<(String, String)>) -> (out: Vec<(String, String)>)
    ensures
        out@ == entries@,
{
    let mut out: Vec<(String, String)> = Vec::new();
    let mut i: usize = 0;
    while i < entries.len()
        invariant
            i <= entries@.len(),
            out@ == entries@.take(i as int),
        decreases entries@.len() - i,
    {
        out.push((entries[i].0.clone(), entries[i].1.clone()));
        assert(out@ =~= entries@.take(i + 1));
        i += 1;
    }
    assert(entries@.take(i as int) =~= entries@);
    out
}

/// Puts every entry of `extra` into `entries`, one after the other.
pub fn put_entries(entries: &mut Vec<(String, String)>, extra: &Vec<(String, String)>)
    requires
        sorted(pairs(old(entries)@)),
    ensures
        pairs(final(entries)@) == put_all(pairs(old(entries)@), pairs(extra@)),
        sorted(pairs(final(entries)@)),
{
    let ghost start = pairs(entries@);
    let ghost more = pairs(extra@);
    let mut i: usize = 0;
    assert(more.skip(0) =~= more);
    while i < extra.len()
        invariant
            i <= extra@.len(),
            more == pairs(extra@),
            sorted(pairs(entries@)),
            put_all(start, more) == put_all(pairs(entries@), more.skip(i as int)),
        decreases extra@.len() - i,
    {
        let ghost rest = more.skip(i as int);
        assert(rest[0] == more[i as int]);
        assert(rest.drop_first() =~= more.skip(i + 1));
        put_entry(entries, extra[i].0.clone(), extra[i].1.clone());
        i += 1;
    }
}

impl InfoSheet {
    /// Both lists stand in the order of their keys, and no key occurs twice.
    pub open spec fn wf(self) -> bool {
        sorted(self@.info) && sorted(self@.key_bindings)
    }

    /// The same sheet with the fact `key` set to `value`.
    pub fn info(self, key: &str, value: &str) -> (out: InfoSheet)
        requires
            self.wf(),
        ensures
            out.wf(),
            out@ == (InfoSheetModel { info: put(self@.info, key@, value@), ..self@ }),
    {
        let mut out = self;
        put_entry(&mut out.info, key.to_owned(), value.to_owned());
        out
    }

    /// The same sheet with the key `key` described by `value`.
    pub fn key_binding(self, key: &str, value: &str) -> (out: InfoSheet)
        requires
            self.wf(),
        ensures
            out.wf(),
            out@ == (InfoSheetModel { key_bindings: put(self@.key_bindings, key@, value@), ..self@ }),
    {
        let mut out = self;
        put_entry(&mut out.key_bindings, key.to_owned(), value.to_owned());
        out
    }

    /// The facts, in the order of their keys.
    pub fn iter_info(&self) -> (out: Vec<(String, String)>)
        ensures
            pairs(out@) == self@.info,
    {
        copy_entries(&self.info)
    }

    /// The key bindings, in the order of their keys.
    pub fn iter_key_bindings(&self) -> (out: Vec<(String, String)>)
        ensures
            pairs(out@) == self@.key_bindings,
    {
        copy_entries(&self.key_bindings)
    }

    /// This sheet with every entry of `other` put into it: where both have a key,
    /// the value of `other` stays.
    pub fn merge(&self, other: InfoSheet) -> (out: InfoSheet)
        requires
            self.wf(),
        ensures
            out.wf(),
            out@ == (InfoSheetModel {
                info: put_all(self@.info, other@.info),
                key_bindings: put_all(self@.key_bindings, other@.key_bindings),
            }),
    {
        let mut info = copy_entries(&self.info);
        let mut key_bindings = copy_entries(&self.key_bindings);
        put_entries(&mut info, &other.info);
        put_entries(&mut key_bindings, &other.key_bindings);
        InfoSheet { info, key_bindings }
    }
}

} // verus!

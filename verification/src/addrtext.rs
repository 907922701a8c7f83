//! The text form of the addresses a game server advertises, as the standard
//! library writes them: IPv4 in dotted decimal, IPv6 in the canonical form
//! of RFC 5952 (lower-case hexadecimal groups without leading zeros, the
//! longest run of two or more zero groups written `::`, the first such run
//! where several are equally long, and IPv4-mapped addresses written
//! `::ffff:` followed by the dotted IPv4 address).
use vstd::prelude::*;
use vstd::std_specs::btree::spec_btree_keys_iter;
use vstd::std_specs::iter::IteratorSpec;
use vstd::string::*;

use crate::network::ConnectionInfo;

verus! {

/// The digit for `d` (`0`-`9`, then `a`-`f`).
pub open spec fn digit_char(d: nat) -> char {
    if d < 10 {
        (48 + d) as char
    } else {
        (87 + d) as char
    }
}

/// `v` in decimal, without leading zeros.
pub open spec fn dec_text(v: nat) -> Seq<char>
    decreases v,
{
    if v < 10 {
        seq![digit_char(v)]
    } else {
        dec_text(v / 10) + seq![digit_char(v % 10)]
    }
}

/// `v` in lower-case hexadecimal, without leading zeros.
pub open spec fn hex_text(v: nat) -> Seq<char>
    decreases v,
{
    if v < 16 {
        seq![digit_char(v)]
    } else {
        hex_text(v / 16) + seq![digit_char(v % 16)]
    }
}

/// The IPv4 address `a` in dotted decimal, most significant octet first.
pub open spec fn v4_text(a: u32) -> Seq<char> {
    dec_text(((a >> 24u32) as u8) as nat) + seq!['.'] + dec_text(((a >> 16u32) as u8) as nat) + seq!['.']
        + dec_text(((a >> 8u32) as u8) as nat) + seq!['.'] + dec_text((a as u8) as nat)
}

fn digit_str(d: u32) -> (s: &'static str)
    requires
        d < 16,
    ensures
        s@ == seq![digit_char(d as nat)],
{
    match d {
        0 => { proof { reveal_strlit("0"); } "0" },
        1 => { proof { reveal_strlit("1"); } "1" },
        2 => { proof { reveal_strlit("2"); } "2" },
        3 => { proof { reveal_strlit("3"); } "3" },
        4 => { proof { reveal_strlit("4"); } "4" },
        5 => { proof { reveal_strlit("5"); } "5" },
        6 => { proof { reveal_strlit("6"); } "6" },
        7 => { proof { reveal_strlit("7"); } "7" },
        8 => { proof { reveal_strlit("8"); } "8" },
        9 => { proof { reveal_strlit("9"); } "9" },
        10 => { proof { reveal_strlit("a"); } "a" },
        11 => { proof { reveal_strlit("b"); } "b" },
        12 => { proof { reveal_strlit("c"); } "c" },
        13 => { proof { reveal_strlit("d"); } "d" },
        14 => { proof { reveal_strlit("e"); } "e" },
        _ => { proof { reveal_strlit("f"); } "f" },
    }
}

pub(crate) fn push_dec(s: &mut String, v: u32)
    ensures
        final(s)@ == old(s)@ + dec_text(v as nat),
    decreases v,
{
    if v < 10 {
        s.append(digit_str(v));
    } else {
        push_dec(s, v / 10);
        s.append(digit_str(v % 10));
        assert(old(s)@ + dec_text((v / 10) as nat) + seq![digit_char((v % 10) as nat)] =~= old(s)@
            + dec_text(v as nat));
    }
}

fn push_hex(s: &mut String, v: u32)
    ensures
        final(s)@ == old(s)@ + hex_text(v as nat),
    decreases v,
{
    if v < 16 {
        s.append(digit_str(v));
    } else {
        push_hex(s, v / 16);
        s.append(digit_str(v % 16));
        assert(old(s)@ + hex_text((v / 16) as nat) + seq![digit_char((v % 16) as nat)] =~= old(s)@
            + hex_text(v as nat));
    }
}

fn push_dot(s: &mut String)
    ensures
        final(s)@ == old(s)@ + seq!['.'],
{
    proof {
        reveal_strlit(".");
    }
    s.append(".");
}

fn push_v4(s: &mut String, a: u32)
    ensures
        final(s)@ == old(s)@ + v4_text(a),
{
    let ghost s0 = s@;
    push_dec(s, ((a >> 24u32) as u8) as u32);
    push_dot(s);
    push_dec(s, ((a >> 16u32) as u8) as u32);
    push_dot(s);
    push_dec(s, ((a >> 8u32) as u8) as u32);
    push_dot(s);
    push_dec(s, (a as u8) as u32);
    assert(s@ =~= s0 + v4_text(a));
}

/// Writes the IPv4 address `a` in dotted decimal.
pub fn v4_to_string(a: u32) -> (t: String)
    ensures
        t@ == v4_text(a),
{
    let mut s = String::new();
    push_v4(&mut s, a);
    assert(s@ =~= v4_text(a));
    s
}

/// The eight 16-bit groups of the IPv6 address `a`, most significant first.
pub open spec fn v6_group(a: u128, i: int) -> u16 {
    (a >> ((112 - 16 * i) as u128)) as u16
}

pub open spec fn v6_groups(a: u128) -> Seq<u16> {
    Seq::new(8, |i: int| v6_group(a, i))
}

/// `::ffff:0:0/96`, the IPv4-mapped addresses.
pub open spec fn v4_mapped(g: Seq<u16>) -> bool {
    &&& g[0] == 0 &&& g[1] == 0 &&& g[2] == 0 &&& g[3] == 0 &&& g[4] == 0
    &&& g[5] == 0xffff
}

/// Groups `s .. s + l` are all zero.
pub open spec fn zero_run(g: Seq<u16>, s: int, l: int) -> bool {
    &&& 0 <= s
    &&& 0 <= l
    &&& s + l <= g.len()
    &&& forall|k: int| s <= k < s + l ==> g[k] == 0
}

/// The zero groups written `::`: a run of at least two, no run longer,
/// and none as long starting earlier.
pub open spec fn elided_run(g: Seq<u16>, s: int, l: int) -> bool {
    &&& l >= 2
    &&& zero_run(g, s, l)
    &&& forall|s2: int, l2: int| #[trigger] zero_run(g, s2, l2) ==> l2 <= l
    &&& forall|s2: int| 0 <= s2 < s ==> !zero_run(g, s2, l)
}

/// Groups in hexadecimal, separated by `:`.
pub open spec fn join_groups(g: Seq<u16>) -> Seq<char>
    decreases g.len(),
{
    if g.len() == 0 {
        Seq::empty()
    } else if g.len() == 1 {
        hex_text(g[0] as nat)
    } else {
        join_groups(g.drop_last()) + seq![':'] + hex_text(g.last() as nat)
    }
}

/// The IPv6 address `a` in the canonical form of RFC 5952.
pub open spec fn v6_text(a: u128) -> Seq<char> {
    let g = v6_groups(a);
    if v4_mapped(g) {
        seq![':', ':', 'f', 'f', 'f', 'f', ':'] + v4_text(a as u32)
    } else if exists|s: int, l: int| elided_run(g, s, l) {
        let (s, l) = choose|s: int, l: int| elided_run(g, s, l);
        join_groups(g.take(s)) + seq![':', ':'] + join_groups(g.skip(s + l))
    } else {
        join_groups(g)
    }
}

proof fn lemma_elided_run_unique(g: Seq<u16>, s1: int, l1: int, s2: int, l2: int)
    requires
        elided_run(g, s1, l1),
        elided_run(g, s2, l2),
    ensures
        s1 == s2 && l1 == l2,
{
    assert(l2 <= l1);
    assert(l1 <= l2);
    if s1 < s2 {
        assert(!zero_run(g, s1, l2));
    }
    if s2 < s1 {
        assert(!zero_run(g, s2, l1));
    }
}

fn is_zero_run(g: &Vec<u16>, s: usize, l: usize) -> (b: bool)
    requires
        g@.len() == 8,
        s + l <= 8,
    ensures
        b == zero_run(g@, s as int, l as int),
{
    let end = s + l;
    let mut k = s;
    while k < end
        invariant
            end == s + l,
            s <= k <= s + l,
            s + l <= g@.len(),
            forall|j: int| s <= j < k ==> g@[j] == 0,
        decreases end - k,
    {
        if g[k] != 0 {
            return false;
        }
        k = k + 1;
    }
    true
}

/// Finds the zero groups to write `::`: the longest run of two or more, the
/// first among equals.
fn find_elided(g: &Vec<u16>) -> (r: Option<(usize, usize)>)
    requires
        g@.len() == 8,
    ensures
        match r {
            Some((s, l)) => elided_run(g@, s as int, l as int),
            None => !exists|s: int, l: int| elided_run(g@, s, l),
        },
{
    let mut l: usize = 8;
    while l >= 2
        invariant
            1 <= l <= 8,
            g@.len() == 8,
            forall|s2: int, l2: int| l2 > l && #[trigger] zero_run(g@, s2, l2) ==> false,
        decreases l,
    {
        let mut s: usize = 0;
        while s + l <= 8
            invariant
                2 <= l <= 8,
                s <= 8,
                g@.len() == 8,
                forall|s2: int, l2: int| l2 > l && #[trigger] zero_run(g@, s2, l2) ==> false,
                forall|s2: int| 0 <= s2 < s ==> !zero_run(g@, s2, l as int),
            decreases 8 - s,
        {
            if is_zero_run(g, s, l) {
                assert forall|s2: int, l2: int| #[trigger] zero_run(g@, s2, l2) implies l2 <= l by {
                    if l2 > l {
                    }
                }
                return Some((s, l));
            }
            s = s + 1;
        }
        assert forall|s2: int, l2: int| l2 > l - 1 && #[trigger] zero_run(g@, s2, l2) implies false by {
            if l2 == l {
                assert(s2 < s);
            }
        }
        l = l - 1;
    }
    assert forall|s: int, l2: int| !elided_run(g@, s, l2) by {
        if elided_run(g@, s, l2) {
            assert(zero_run(g@, s, l2));
        }
    }
    None
}

fn push_colons(s: &mut String)
    ensures
        final(s)@ == old(s)@ + seq![':', ':'],
{
    proof {
        reveal_strlit("::");
    }
    s.append("::");
}

/// Writes groups `from .. to` of `g` in hexadecimal, separated by `:`.
fn push_groups(s: &mut String, g: &Vec<u16>, from: usize, to: usize)
    requires
        from <= to <= g@.len(),
    ensures
        final(s)@ == old(s)@ + join_groups(g@.subrange(from as int, to as int)),
{
    let ghost s0 = s@;
    let mut i = from;
    assert(g@.subrange(from as int, from as int) =~= Seq::<u16>::empty());
    while i < to
        invariant
            from <= i <= to <= g@.len(),
            s@ == s0 + join_groups(g@.subrange(from as int, i as int)),
        decreases to - i,
    {
        let ghost prev = s@;
        let sub = Ghost(g@.subrange(from as int, i + 1));
        assert(sub@.drop_last() =~= g@.subrange(from as int, i as int));
        assert(sub@.last() == g@[i as int]);
        if i > from {
            proof {
                reveal_strlit(":");
            }
            s.append(":");
        }
        push_hex(s, g[i] as u32);
        assert(s@ =~= s0 + join_groups(sub@));
        i = i + 1;
    }
}

fn push_v6(s: &mut String, a: u128)
    ensures
        final(s)@ == old(s)@ + v6_text(a),
{
    let ghost s0 = s@;
    let mut g: Vec<u16> = Vec::new();
    let mut i: u128 = 0;
    while i < 8
        invariant
            i <= 8,
            g@.len() == i,
            forall|k: int| 0 <= k < i ==> g@[k] == v6_group(a, k),
        decreases 8 - i,
    {
        let sh: u128 = 112 - 16 * i;
        g.push((a >> sh) as u16);
        i = i + 1;
    }
    assert(g@ =~= v6_groups(a));
    if g[0] == 0 && g[1] == 0 && g[2] == 0 && g[3] == 0 && g[4] == 0 && g[5] == 0xffff {
        proof {
            reveal_strlit("::ffff:");
        }
        s.append("::ffff:");
        push_v4(s, a as u32);
        assert(s@ =~= s0 + v6_text(a));
    } else {
        match find_elided(&g) {
            Some((st, l)) => {
                proof {
                    let (cs, cl) = choose|s: int, l: int| elided_run(g@, s, l);
                    lemma_elided_run_unique(g@, st as int, l as int, cs, cl);
                }
                push_groups(s, &g, 0, st);
                push_colons(s);
                push_groups(s, &g, st + l, 8);
                assert(g@.take(st as int) =~= g@.subrange(0, st as int));
                assert(g@.skip(st + l) =~= g@.subrange(st + l, 8));
                assert(s@ =~= s0 + v6_text(a));
            },
            None => {
                push_groups(s, &g, 0, 8);
                assert(g@.subrange(0, 8) =~= g@);
                assert(s@ =~= s0 + v6_text(a));
            },
        }
    }
}

/// Writes the IPv6 address `a` in the canonical form of RFC 5952.
pub fn v6_to_string(a: u128) -> (t: String)
    ensures
        t@ == v6_text(a),
{
    let mut s = String::new();
    push_v6(&mut s, a);
    assert(s@ =~= v6_text(a));
    s
}

/// `a` sorts before `b` in the order of `String`: character by character,
/// a proper prefix first.
pub open spec fn text_lt(a: Seq<char>, b: Seq<char>) -> bool
    decreases a.len(),
{
    if a.len() == 0 {
        b.len() > 0
    } else if b.len() == 0 {
        false
    } else if a[0] != b[0] {
        (a[0] as int) < (b[0] as int)
    } else {
        text_lt(a.drop_first(), b.drop_first())
    }
}

/// The texts in strictly ascending order.
pub open spec fn ascending(l: Seq<Seq<char>>) -> bool {
    forall|i: int, j: int| 0 <= i < j < l.len() ==> text_lt(#[trigger] l[i], #[trigger] l[j])
}

/// `l` lists the texts of `texts`, each once, in ascending order.
pub open spec fn lists_in_order(l: Seq<Seq<char>>, texts: Set<Seq<char>>) -> bool {
    ascending(l) && l.to_set() == texts
}

/// The texts of `texts` in ascending order, each once (such a list, where
/// there is one, is unique: [`lemma_lists_in_order_unique`]).
pub open spec fn in_text_order(texts: Set<Seq<char>>) -> Seq<Seq<char>> {
    choose|l: Seq<Seq<char>>| lists_in_order(l, texts)
}

pub proof fn lemma_text_lt_irreflexive(a: Seq<char>)
    ensures
        !text_lt(a, a),
    decreases a.len(),
{
    if a.len() > 0 {
        lemma_text_lt_irreflexive(a.drop_first());
    }
}

pub proof fn lemma_text_lt_transitive(a: Seq<char>, b: Seq<char>, c: Seq<char>)
    requires
        text_lt(a, b),
        text_lt(b, c),
    ensures
        text_lt(a, c),
    decreases a.len(),
{
    if a.len() > 0 && b.len() > 0 && c.len() > 0 && a[0] == b[0] && b[0] == c[0] {
        lemma_text_lt_transitive(a.drop_first(), b.drop_first(), c.drop_first());
    }
}

pub proof fn lemma_text_lt_total(a: Seq<char>, b: Seq<char>)
    requires
        a != b,
    ensures
        text_lt(a, b) || text_lt(b, a),
    decreases a.len(),
{
    if a.len() == 0 {
        assert(b.len() > 0) by {
            if b.len() == 0 {
                assert(a =~= b);
            }
        }
    } else if b.len() > 0 && a[0] == b[0] {
        if a.drop_first() == b.drop_first() {
            assert(a =~= seq![a[0]] + a.drop_first());
            assert(b =~= seq![b[0]] + b.drop_first());
        }
        lemma_text_lt_total(a.drop_first(), b.drop_first());
    } else if b.len() > 0 {
        assert((a[0] as int) != (b[0] as int));
    }
}

/// There is at most one ascending list of a set of texts.
pub proof fn lemma_lists_in_order_unique(l1: Seq<Seq<char>>, l2: Seq<Seq<char>>, texts: Set<Seq<char>>)
    requires
        lists_in_order(l1, texts),
        lists_in_order(l2, texts),
    ensures
        l1 == l2,
    decreases l1.len(),
{
    if l1.len() == 0 {
        if l2.len() > 0 {
            assert(l2.to_set().contains(l2[0]));
            assert(!l1.to_set().contains(l2[0]));
        }
        assert(l1 =~= l2);
    } else {
        let x = l1[0];
        assert(l1.to_set().contains(x));
        assert(l2.to_set().contains(x));
        let m = choose|m: int| 0 <= m < l2.len() && l2[m] == x;
        let y = l2[0];
        assert(l2.to_set().contains(y));
        assert(l1.to_set().contains(y));
        let k = choose|k: int| 0 <= k < l1.len() && l1[k] == y;
        if k > 0 && m > 0 {
            assert(text_lt(x, y));
            assert(text_lt(y, x));
            lemma_text_lt_transitive(x, y, x);
            lemma_text_lt_irreflexive(x);
        }
        assert(x == y);
        let r1 = l1.drop_first();
        let r2 = l2.drop_first();
        let rest = texts.remove(x);
        assert forall|i: int, j: int| 0 <= i < j < r1.len() implies text_lt(#[trigger] r1[i], #[trigger] r1[j]) by {
            assert(r1[i] == l1[i + 1] && r1[j] == l1[j + 1]);
        }
        assert forall|i: int, j: int| 0 <= i < j < r2.len() implies text_lt(#[trigger] r2[i], #[trigger] r2[j]) by {
            assert(r2[i] == l2[i + 1] && r2[j] == l2[j + 1]);
        }
        assert(r1.to_set() =~= rest) by {
            assert forall|t: Seq<char>| r1.to_set().contains(t) implies rest.contains(t) by {
                let i = choose|i: int| 0 <= i < r1.len() && r1[i] == t;
                assert(l1[i + 1] == t);
                assert(text_lt(l1[0], l1[i + 1]));
                lemma_text_lt_irreflexive(t);
                assert(l1.to_set().contains(t));
            }
            assert forall|t: Seq<char>| rest.contains(t) implies r1.to_set().contains(t) by {
                assert(l1.to_set().contains(t));
                let i = choose|i: int| 0 <= i < l1.len() && l1[i] == t;
                assert(i != 0);
                assert(r1[i - 1] == t);
            }
        }
        assert(r2.to_set() =~= rest) by {
            assert forall|t: Seq<char>| r2.to_set().contains(t) implies rest.contains(t) by {
                let i = choose|i: int| 0 <= i < r2.len() && r2[i] == t;
                assert(l2[i + 1] == t);
                assert(text_lt(l2[0], l2[i + 1]));
                lemma_text_lt_irreflexive(t);
                assert(l2.to_set().contains(t));
            }
            assert forall|t: Seq<char>| rest.contains(t) implies r2.to_set().contains(t) by {
                assert(l2.to_set().contains(t));
                let i = choose|i: int| 0 <= i < l2.len() && l2[i] == t;
                assert(i != 0);
                assert(r2[i - 1] == t);
            }
        }
        lemma_lists_in_order_unique(r1, r2, rest);
        assert(l1 =~= seq![x] + r1);
        assert(l2 =~= seq![y] + r2);
    }
}

/// The texts of a list of strings.
pub open spec fn texts_of(v: Seq<String>) -> Seq<Seq<char>> {
    Seq::new(v.len(), |i: int| v[i]@)
}

fn text_less(a: &String, b: &String) -> (r: bool)
    ensures
        r == text_lt(a@, b@),
{
    let sa = a.as_str();
    let sb = b.as_str();
    let na = sa.unicode_len();
    let nb = sb.unicode_len();
    let mut i: usize = 0;
    assert(a@.skip(0) =~= a@);
    assert(b@.skip(0) =~= b@);
    while i < na && i < nb
        invariant
            sa@ == a@,
            sb@ == b@,
            i <= na,
            i <= nb,
            na == a@.len(),
            nb == b@.len(),
            text_lt(a@, b@) == text_lt(a@.skip(i as int), b@.skip(i as int)),
        decreases na - i,
    {
        let ca = sa.get_char(i);
        let cb = sb.get_char(i);
        assert(a@.skip(i as int)[0] == ca);
        assert(b@.skip(i as int)[0] == cb);
        if ca != cb {
            assert((ca as u32) as int == ca as int && (cb as u32) as int == cb as int);
            assert(a@.skip(i as int).len() > 0 && b@.skip(i as int).len() > 0);
            assert(text_lt(a@.skip(i as int), b@.skip(i as int)) == ((ca as int) < (cb as int)));
            return (ca as u32) < (cb as u32);
        }
        assert(a@.skip(i as int).drop_first() =~= a@.skip(i + 1));
        assert(b@.skip(i as int).drop_first() =~= b@.skip(i + 1));
        i = i + 1;
    }
    i == na && i < nb
}

/// Adds `t` to an ascending list of strings, unless it is there already.
fn insert_text(list: &mut Vec<String>, t: String)
    requires
        ascending(texts_of(old(list)@)),
    ensures
        ascending(texts_of(final(list)@)),
        texts_of(final(list)@).to_set() == texts_of(old(list)@).to_set().insert(t@),
{
    let ghost old_v = texts_of(list@);
    let n = list.len();
    let mut p: usize = 0;
    let mut found = false;
    while !found && p < n
        invariant
            p <= n,
            n == list@.len(),
            texts_of(list@) == old_v,
            forall|k: int| 0 <= k < p ==> text_lt(old_v[k], t@),
            found ==> p < n && !text_lt(old_v[p as int], t@),
        decreases n - p + (if found { 0int } else { 1int }),
    {
        if text_less(&list[p], &t) {
            p = p + 1;
        } else {
            found = true;
        }
    }
    if p < n && !text_less(&t, &list[p]) {
        proof {
            if old_v[p as int] != t@ {
                lemma_text_lt_total(old_v[p as int], t@);
            }
            assert(old_v.to_set().insert(t@) =~= old_v.to_set()) by {
                assert(old_v.to_set().contains(old_v[p as int]));
            }
        }
        return;
    }
    proof {
        assert forall|k: int| p <= k < n implies text_lt(t@, #[trigger] old_v[k]) by {
            if old_v[p as int] == t@ {
            } else {
                lemma_text_lt_total(old_v[p as int], t@);
            }
            assert(text_lt(t@, old_v[p as int]));
            if k > p {
                lemma_text_lt_transitive(t@, old_v[p as int], old_v[k]);
            }
        }
    }
    list.insert(p, t);
    proof {
        let new_v = texts_of(list@);
        assert(new_v =~= old_v.insert(p as int, t@));
        assert forall|i: int, j: int| 0 <= i < j < new_v.len() implies text_lt(
            #[trigger] new_v[i],
            #[trigger] new_v[j],
        ) by {
            if j < p {
            } else if j == p {
            } else if i < p {
                assert(new_v[j] == old_v[j - 1]);
                if j - 1 > i {
                } else {
                }
            } else if i == p {
                assert(new_v[j] == old_v[j - 1]);
            } else {
                assert(new_v[i] == old_v[i - 1] && new_v[j] == old_v[j - 1]);
            }
        }
        assert(new_v.to_set() =~= old_v.to_set().insert(t@)) by {
            assert forall|x: Seq<char>| new_v.to_set().contains(x) implies old_v.to_set().insert(t@).contains(x) by {
                let i = choose|i: int| 0 <= i < new_v.len() && new_v[i] == x;
                if i < p {
                    assert(old_v[i] == x);
                } else if i > p {
                    assert(old_v[i - 1] == x);
                }
            }
            assert forall|x: Seq<char>| old_v.to_set().insert(t@).contains(x) implies new_v.to_set().contains(x) by {
                if x == t@ {
                    assert(new_v[p as int] == x);
                } else {
                    let i = choose|i: int| 0 <= i < old_v.len() && old_v[i] == x;
                    if i < p {
                        assert(new_v[i] == x);
                    } else {
                        assert(new_v[i + 1] == x);
                    }
                }
            }
        }
    }
}

/// The texts of a set of IPv4 addresses.
pub open spec fn v4_texts(addrs: Set<u32>) -> Set<Seq<char>> {
    addrs.map(|a: u32| v4_text(a))
}

/// The texts of a set of IPv6 addresses.
pub open spec fn v6_texts(addrs: Set<u128>) -> Set<Seq<char>> {
    addrs.map(|a: u128| v6_text(a))
}

proof fn lemma_in_text_order(l: Seq<Seq<char>>, texts: Set<Seq<char>>)
    requires
        lists_in_order(l, texts),
    ensures
        l == in_text_order(texts),
{
    let c = in_text_order(texts);
    assert(lists_in_order(c, texts));
    lemma_lists_in_order_unique(l, c, texts);
}

proof fn lemma_insert_in_order(l: Seq<Seq<char>>, x: Seq<char>) -> (r: Seq<Seq<char>>)
    requires
        ascending(l),
        !l.contains(x),
    ensures
        ascending(r),
        r.to_set() == l.to_set().insert(x),
        forall|i: int| 0 <= i < r.len() ==> r[i] == x || l.contains(#[trigger] r[i]),
    decreases l.len(),
{
    if l.len() == 0 {
        let r = seq![x];
        assert(r.to_set() =~= l.to_set().insert(x)) by {
            assert(r[0] == x);
        }
        r
    } else if text_lt(l.last(), x) {
        let r = l.push(x);
        assert forall|i: int, j: int| 0 <= i < j < r.len() implies text_lt(#[trigger] r[i], #[trigger] r[j]) by {
            if j == l.len() {
                if i < l.len() - 1 {
                    lemma_text_lt_transitive(l[i], l.last(), x);
                }
            } else {
                assert(r[i] == l[i] && r[j] == l[j]);
            }
        }
        assert(r.to_set() =~= l.to_set().insert(x)) by {
            assert forall|t: Seq<char>| r.to_set().contains(t) implies l.to_set().insert(x).contains(t) by {
                let i = choose|i: int| 0 <= i < r.len() && r[i] == t;
                if i < l.len() {
                    assert(l[i] == t);
                }
            }
            assert forall|t: Seq<char>| l.to_set().insert(x).contains(t) implies r.to_set().contains(t) by {
                if t == x {
                    assert(r[l.len() as int] == t);
                } else {
                    let i = choose|i: int| 0 <= i < l.len() && l[i] == t;
                    assert(r[i] == t);
                }
            }
        }
        assert forall|i: int| 0 <= i < r.len() implies r[i] == x || l.contains(#[trigger] r[i]) by {
            if i < l.len() {
                assert(r[i] == l[i]);
            }
        }
        r
    } else {
        let y = l.last();
        assert(l.contains(y)) by {
            assert(l[l.len() - 1] == y);
        }
        assert(x != y);
        lemma_text_lt_total(x, y);
        let front = l.drop_last();
        assert forall|i: int, j: int| 0 <= i < j < front.len() implies text_lt(
            #[trigger] front[i],
            #[trigger] front[j],
        ) by {
            assert(front[i] == l[i] && front[j] == l[j]);
        }
        assert(!front.contains(x)) by {
            if front.contains(x) {
                let i = choose|i: int| 0 <= i < front.len() && front[i] == x;
                assert(l[i] == x);
            }
        }
        let r0 = lemma_insert_in_order(front, x);
        let r = r0.push(y);
        assert forall|i: int, j: int| 0 <= i < j < r.len() implies text_lt(#[trigger] r[i], #[trigger] r[j]) by {
            if j == r0.len() {
                assert(r[i] == r0[i]);
                if r0[i] != x {
                    assert(front.contains(r0[i]));
                    let k = choose|k: int| 0 <= k < front.len() && front[k] == r0[i];
                    assert(l[k] == r0[i]);
                    assert(l[l.len() - 1] == y);
                }
            } else {
                assert(r[i] == r0[i] && r[j] == r0[j]);
            }
        }
        assert(r.to_set() =~= l.to_set().insert(x)) by {
            assert forall|t: Seq<char>| r.to_set().contains(t) implies l.to_set().insert(x).contains(t) by {
                let i = choose|i: int| 0 <= i < r.len() && r[i] == t;
                if i < r0.len() {
                    assert(r0[i] == t);
                    assert(r0.to_set().contains(t));
                    if t != x {
                        assert(front.to_set().contains(t));
                        let k = choose|k: int| 0 <= k < front.len() && front[k] == t;
                        assert(l[k] == t);
                    }
                } else {
                    assert(l[l.len() - 1] == t);
                }
            }
            assert forall|t: Seq<char>| l.to_set().insert(x).contains(t) implies r.to_set().contains(t) by {
                if t == x {
                    assert(r0.to_set().contains(x));
                    let i = choose|i: int| 0 <= i < r0.len() && r0[i] == x;
                    assert(r[i] == t);
                } else if t == y {
                    assert(r[r0.len() as int] == t);
                } else {
                    let k = choose|k: int| 0 <= k < l.len() && l[k] == t;
                    assert(k < l.len() - 1);
                    assert(front[k] == t);
                    assert(front.to_set().contains(t));
                    assert(r0.to_set().contains(t));
                    let i = choose|i: int| 0 <= i < r0.len() && r0[i] == t;
                    assert(r[i] == t);
                }
            }
        }
        assert forall|i: int| 0 <= i < r.len() implies r[i] == x || l.contains(#[trigger] r[i]) by {
            if i < r0.len() {
                assert(r[i] == r0[i]);
                if r0[i] != x {
                    assert(front.contains(r0[i]));
                    let k = choose|k: int| 0 <= k < front.len() && front[k] == r0[i];
                    assert(l[k] == r0[i]);
                }
            } else {
                assert(r[i] == l[l.len() - 1]);
            }
        }
        r
    }
}

proof fn lemma_some_list_in_order(texts: Set<Seq<char>>) -> (l: Seq<Seq<char>>)
    requires
        texts.finite(),
    ensures
        lists_in_order(l, texts),
    decreases texts.len(),
{
    if texts.len() == 0 {
        let l = Seq::<Seq<char>>::empty();
        assert(texts =~= Set::empty()) by {
            if exists|t: Seq<char>| texts.contains(t) {
                let t = choose|t: Seq<char>| texts.contains(t);
                assert(texts.remove(t).len() < texts.len());
            }
        }
        assert(l.to_set() =~= texts);
        l
    } else {
        let x = texts.choose();
        let rest = texts.remove(x);
        let l0 = lemma_some_list_in_order(rest);
        assert(!l0.contains(x)) by {
            if l0.contains(x) {
                assert(l0.to_set().contains(x));
            }
        }
        let l = lemma_insert_in_order(l0, x);
        assert(rest.insert(x) =~= texts);
        l
    }
}

/// Every finite set of texts has its list in ascending order, and
/// [`in_text_order`] is that list.
pub proof fn lemma_in_text_order_lists(texts: Set<Seq<char>>)
    requires
        texts.finite(),
    ensures
        lists_in_order(in_text_order(texts), texts),
{
    let l = lemma_some_list_in_order(texts);
    assert(lists_in_order(l, texts));
}

/// The texts of a finite set of IPv4 addresses, listed in ascending order.
pub proof fn lemma_v4_texts_in_order(addrs: Set<u32>)
    requires
        addrs.finite(),
    ensures
        v4_texts(addrs).finite(),
        lists_in_order(in_text_order(v4_texts(addrs)), v4_texts(addrs)),
{
    addrs.lemma_map_finite(|a: u32| v4_text(a));
    lemma_in_text_order_lists(v4_texts(addrs));
}

/// The texts of a finite set of IPv6 addresses, listed in ascending order.
pub proof fn lemma_v6_texts_in_order(addrs: Set<u128>)
    requires
        addrs.finite(),
    ensures
        v6_texts(addrs).finite(),
        lists_in_order(in_text_order(v6_texts(addrs)), v6_texts(addrs)),
{
    addrs.lemma_map_finite(|a: u128| v6_text(a));
    lemma_in_text_order_lists(v6_texts(addrs));
}

/// No texts list as nothing; one text lists as itself.
pub proof fn lemma_in_text_order_small(t: Seq<char>)
    ensures
        in_text_order(Set::<Seq<char>>::empty()) == Seq::<Seq<char>>::empty(),
        in_text_order(Set::<Seq<char>>::empty().insert(t)) == seq![t],
{
    assert(Seq::<Seq<char>>::empty().to_set() =~= Set::<Seq<char>>::empty());
    lemma_in_text_order(Seq::<Seq<char>>::empty(), Set::<Seq<char>>::empty());
    let one = seq![t];
    assert(one.to_set() =~= Set::<Seq<char>>::empty().insert(t)) by {
        assert(one[0] == t);
    }
    lemma_in_text_order(one, Set::<Seq<char>>::empty().insert(t));
}

impl ConnectionInfo {
    /// The advertised IPv4 addresses in dotted decimal, in ascending order
    /// of their text.
    pub fn v4_strings(&self) -> (r: Vec<String>)
        ensures
            r.deep_view() == in_text_order(v4_texts(self.v4addrs@)),
    {
        broadcast use vstd::std_specs::btree::group_btree_axioms;

        let mut r: Vec<String> = Vec::new();
        let ghost m = self.v4addrs@;
        let ghost full = spec_btree_keys_iter(&self.v4addrs).remaining();
        proof {
            assert(full.unref().to_set() == m);
            assert forall|x: u32| m.contains(x) <==> exists|k: int| 0 <= k < full.len() && *full[k] == x by {
                if m.contains(x) {
                    assert(full.unref().contains(x));
                    let k = choose|k: int| 0 <= k < full.unref().len() && full.unref()[k] == x;
                    assert(*full[k] == x);
                }
                if exists|k: int| 0 <= k < full.len() && *full[k] == x {
                    let k = choose|k: int| 0 <= k < full.len() && *full[k] == x;
                    assert(full.unref()[k] == x);
                }
            }
            assert(texts_of(r@).to_set() =~= Set::<Seq<char>>::empty());
        }
        for a in it: self.v4addrs.iter()
            invariant
                it.seq() == full,
                m == self.v4addrs@,
                it.index() <= full.len(),
                forall|x: u32| m.contains(x) <==> exists|k: int| 0 <= k < full.len() && *full[k] == x,
                ascending(texts_of(r@)),
                texts_of(r@).to_set() == Set::new(
                    |t: Seq<char>| exists|k: int| 0 <= k < it.index() && t == v4_text(*full[k]),
                ),
        {
            let ghost before = texts_of(r@).to_set();
            let ghost i = it.index();
            let t = v4_to_string(*a);
            insert_text(&mut r, t);
            proof {
                assert(*a == *full[i]);
                assert(texts_of(r@).to_set() =~= Set::new(
                    |t: Seq<char>| exists|k: int| 0 <= k < i + 1 && t == v4_text(*full[k]),
                )) by {
                    assert forall|u: Seq<char>| (exists|k: int| 0 <= k < i + 1 && u == v4_text(*full[k]))
                        implies before.insert(v4_text(*a)).contains(u) by {
                        let k = choose|k: int| 0 <= k < i + 1 && u == v4_text(*full[k]);
                        if k < i {
                            assert(before.contains(u));
                        }
                    }
                    assert forall|u: Seq<char>| before.insert(v4_text(*a)).contains(u)
                        implies (exists|k: int| 0 <= k < i + 1 && u == v4_text(*full[k])) by {
                        if u == v4_text(*a) {
                            assert(u == v4_text(*full[i]));
                        } else {
                            assert(before.contains(u));
                        }
                    }
                }
            }
        }
        proof {
            assert(texts_of(r@).to_set() =~= v4_texts(m)) by {
                assert forall|u: Seq<char>| texts_of(r@).to_set().contains(u) implies v4_texts(m).contains(u) by {
                    let k = choose|k: int| 0 <= k < full.len() && u == v4_text(*full[k]);
                    assert(m.contains(*full[k]));
                }
                assert forall|u: Seq<char>| v4_texts(m).contains(u) implies texts_of(r@).to_set().contains(u) by {
                    let x = choose|x: u32| m.contains(x) && v4_text(x) == u;
                    let k = choose|k: int| 0 <= k < full.len() && *full[k] == x;
                    assert(exists|k: int| 0 <= k < full.len() && u == v4_text(*full[k]));
                }
            }
            lemma_in_text_order(texts_of(r@), v4_texts(m));
            assert(r.deep_view() =~= texts_of(r@));
        }
        r
    }

    /// The advertised IPv6 addresses in the canonical form of RFC 5952, in
    /// ascending order of their text.
    pub fn v6_strings(&self) -> (r: Vec<String>)
        ensures
            r.deep_view() == in_text_order(v6_texts(self.v6addrs@)),
    {
        broadcast use vstd::std_specs::btree::group_btree_axioms;

        let mut r: Vec<String> = Vec::new();
        let ghost m = self.v6addrs@;
        let ghost full = spec_btree_keys_iter(&self.v6addrs).remaining();
        proof {
            assert(full.unref().to_set() == m);
            assert forall|x: u128| m.contains(x) <==> exists|k: int| 0 <= k < full.len() && *full[k] == x by {
                if m.contains(x) {
                    assert(full.unref().contains(x));
                    let k = choose|k: int| 0 <= k < full.unref().len() && full.unref()[k] == x;
                    assert(*full[k] == x);
                }
                if exists|k: int| 0 <= k < full.len() && *full[k] == x {
                    let k = choose|k: int| 0 <= k < full.len() && *full[k] == x;
                    assert(full.unref()[k] == x);
                }
            }
            assert(texts_of(r@).to_set() =~= Set::<Seq<char>>::empty());
        }
        for a in it: self.v6addrs.iter()
            invariant
                it.seq() == full,
                m == self.v6addrs@,
                it.index() <= full.len(),
                forall|x: u128| m.contains(x) <==> exists|k: int| 0 <= k < full.len() && *full[k] == x,
                ascending(texts_of(r@)),
                texts_of(r@).to_set() == Set::new(
                    |t: Seq<char>| exists|k: int| 0 <= k < it.index() && t == v6_text(*full[k]),
                ),
        {
            let ghost before = texts_of(r@).to_set();
            let ghost i = it.index();
            let t = v6_to_string(*a);
            insert_text(&mut r, t);
            proof {
                assert(*a == *full[i]);
                assert(texts_of(r@).to_set() =~= Set::new(
                    |t: Seq<char>| exists|k: int| 0 <= k < i + 1 && t == v6_text(*full[k]),
                )) by {
                    assert forall|u: Seq<char>| (exists|k: int| 0 <= k < i + 1 && u == v6_text(*full[k]))
                        implies before.insert(v6_text(*a)).contains(u) by {
                        let k = choose|k: int| 0 <= k < i + 1 && u == v6_text(*full[k]);
                        if k < i {
                            assert(before.contains(u));
                        }
                    }
                    assert forall|u: Seq<char>| before.insert(v6_text(*a)).contains(u)
                        implies (exists|k: int| 0 <= k < i + 1 && u == v6_text(*full[k])) by {
                        if u == v6_text(*a) {
                            assert(u == v6_text(*full[i]));
                        } else {
                            assert(before.contains(u));
                        }
                    }
                }
            }
        }
        proof {
            assert(texts_of(r@).to_set() =~= v6_texts(m)) by {
                assert forall|u: Seq<char>| texts_of(r@).to_set().contains(u) implies v6_texts(m).contains(u) by {
                    let k = choose|k: int| 0 <= k < full.len() && u == v6_text(*full[k]);
                    assert(m.contains(*full[k]));
                }
                assert forall|u: Seq<char>| v6_texts(m).contains(u) implies texts_of(r@).to_set().contains(u) by {
                    let x = choose|x: u128| m.contains(x) && v6_text(x) == u;
                    let k = choose|k: int| 0 <= k < full.len() && *full[k] == x;
                    assert(exists|k: int| 0 <= k < full.len() && u == v6_text(*full[k]));
                }
            }
            lemma_in_text_order(texts_of(r@), v6_texts(m));
            assert(r.deep_view() =~= texts_of(r@));
        }
        r
    }
}

} // verus!

//! Backup archives of the whole app: how they are named, which names may be
//! downloaded or deleted, how their sizes are shown and in which order they
//! are listed.

use vstd::prelude::*;

use crate::text::{
    chars_of, contains, is_digit, decimal_u128, digit_char, ends_with, has_char, push_all, push_str,
    spec_contains, spec_digits, spec_ends_with, spec_has_char, spec_starts_with, starts_with,
    string_of,
};

verus! {

/// The directory backups are kept in.
pub const BACKUP_DIR: &'static str = "data/backups";

// ---------------------------------------------------------------------------
// Sizes
// ---------------------------------------------------------------------------
/// `n / d` rounded to the nearest integer, a tie going to the even one.
pub open spec fn round_half_even(n: nat, d: nat) -> nat
    recommends
        d > 0,
{
    let q = n / d;
    let r = n % d;
    if 2 * r > d {
        q + 1
    } else if 2 * r < d {
        q
    } else if q % 2 == 0 {
        q
    } else {
        q + 1
    }
}

/// The distance between neighbouring `f64` values near `b`: 1 below 2^53,
/// and twice as much each time `b` doubles beyond.
pub open spec fn float_spacing(b: nat) -> nat
    decreases b,
{
    if b < 0x20_0000_0000_0000 {
        1
    } else {
        2 * float_spacing(b / 2)
    }
}

/// The value of `b as f64`: `b` rounded to the nearest `f64`, a tie going to
/// the even significand.
pub open spec fn as_f64(b: nat) -> nat {
    let u = float_spacing(b);
    round_half_even(b, u) * u
}

/// The unit a size is shown in: bytes, KB, MB or GB (0 to 3).
pub open spec fn size_unit(f: nat) -> nat {
    if f < 1024 {
        0
    } else if f < 0x10_0000 {
        1
    } else if f < 0x4000_0000 {
        2
    } else {
        3
    }
}

pub open spec fn unit_scale(u: nat) -> nat {
    if u == 0 {
        1
    } else if u == 1 {
        1024
    } else if u == 2 {
        0x10_0000
    } else {
        0x4000_0000
    }
}

pub open spec fn unit_name(u: nat) -> Seq<char> {
    if u == 0 {
        "B"@
    } else if u == 1 {
        "KB"@
    } else if u == 2 {
        "MB"@
    } else {
        "GB"@
    }
}

/// A byte count as shown to people: plain bytes below 1024, otherwise the
/// count in the largest of KB, MB, GB (powers of 1024) that it reaches, with
/// one decimal, rounded half to even, as `{:.1}` prints the `f64` value.
pub open spec fn spec_human_size(bytes: nat) -> Seq<char> {
    let f = as_f64(bytes);
    let u = size_unit(f);
    if u == 0 {
        spec_digits(bytes) + " B"@
    } else {
        let t = round_half_even(f * 10, unit_scale(u));
        spec_digits(t / 10) + "."@ + seq![digit_char(t % 10)] + " "@ + unit_name(u)
    }
}

fn round_half_even_exec(n: u128, d: u128) -> (r: u128)
    requires
        d > 0,
        n / d < u128::MAX,
    ensures
        r == round_half_even(n as nat, d as nat),
{
    let q = n / d;
    let r = n % d;
    if r > d - r {
        q + 1
    } else if r < d - r {
        q
    } else if q % 2 == 0 {
        q
    } else {
        q + 1
    }
}

/// A size in bytes as the backups page shows it, for example `512 B`,
/// `1.5 KB` or `2.0 GB`.
pub fn human_size(bytes: u64) -> (r: String)
    ensures
        r@ == spec_human_size(bytes as nat),
{
    let b: u128 = bytes as u128;
    let mut q: u128 = b;
    let mut u: u128 = 1;
    while q >= 0x20_0000_0000_0000
        invariant
            1 <= u <= b + 1,
            b == bytes,
            q == b / u,
            float_spacing(b as nat) == u * float_spacing(q as nat),
        decreases q,
    {
        proof {
            vstd::arithmetic::div_mod::lemma_div_denominator(b as int, u as int, 2);
            assert(u * float_spacing(q as nat) == (2 * u) * float_spacing((q / 2) as nat))
                by (nonlinear_arith)
                requires
                    float_spacing(q as nat) == 2 * float_spacing((q / 2) as nat),
            ;
            assert(2 * u <= b) by (nonlinear_arith)
                requires
                    q == b / u,
                    q >= 2,
                    u >= 1,
            ;
        }
        q = q / 2;
        u = u * 2;
    }
    assert(float_spacing(q as nat) == 1);
    assert(float_spacing(b as nat) == u) by (nonlinear_arith)
        requires
            float_spacing(b as nat) == u * float_spacing(q as nat),
            float_spacing(q as nat) == 1,
    ;
    let fq = round_half_even_exec(b, u);
    assert(fq <= q + 1);
    assert(fq * u <= 0x20_0000_0000_0000 * u) by (nonlinear_arith)
        requires
            fq <= q + 1,
            q < 0x20_0000_0000_0000,
    ;
    assert(0x20_0000_0000_0000 * u <= 0x20_0000_0000_0000 * (b + 1)) by (nonlinear_arith)
        requires
            u <= b + 1,
    ;
    let f: u128 = fq * u;
    assert(f == as_f64(bytes as nat));
    let mut out: Vec<char> = Vec::new();
    if f < 1024 {
        let d = decimal_u128(b);
        push_all(&mut out, &d);
        push_str(&mut out, " B");
        return string_of(&out);
    }
    let (scale, name): (u128, &str) = if f < 0x10_0000 {
        (1024, "KB")
    } else if f < 0x4000_0000 {
        (0x10_0000, "MB")
    } else {
        (0x4000_0000, "GB")
    };
    assert(scale == unit_scale(size_unit(f as nat)));
    assert(name@ == unit_name(size_unit(f as nat)));
    let t = round_half_even_exec(f * 10, scale);
    let whole = decimal_u128(t / 10);
    push_all(&mut out, &whole);
    push_str(&mut out, ".");
    let d = (t % 10) as u8;
    out.push((d + 48) as char);
    assert(((t % 10) as nat) == (t as nat) % 10);
    push_str(&mut out, " ");
    push_str(&mut out, name);
    string_of(&out)
}

// ---------------------------------------------------------------------------
// Names
// ---------------------------------------------------------------------------
/// A name that the backup pages accept: a `backup-…​.zip` file name with no
/// path separator and no `..` in it.
pub open spec fn spec_is_safe_backup_filename(name: Seq<char>) -> bool {
    &&& spec_starts_with(name, "backup-"@)
    &&& spec_ends_with(name, ".zip"@)
    &&& !spec_has_char(name, '/')
    &&& !spec_has_char(name, '\\')
    &&& !spec_contains(name, ".."@)
}

/// Whether `name` may be listed, downloaded or deleted as a backup.
pub fn is_safe_backup_filename(name: &str) -> (r: bool)
    ensures
        r == spec_is_safe_backup_filename(name@),
{
    let n = chars_of(name);
    starts_with(&n, "backup-") && ends_with(&n, ".zip") && !has_char(&n, '/') && !has_char(
        &n,
        '\\',
    ) && !contains(&n, "..")
}

pub open spec fn spec_backup_file_name(stamp: Seq<char>) -> Seq<char> {
    "backup-"@ + stamp + ".zip"@
}

/// The file name of the backup taken at the time written as `stamp`.
pub fn backup_file_name(stamp: &str) -> (r: String)
    ensures
        r@ == spec_backup_file_name(stamp@),
{
    let mut out: Vec<char> = Vec::new();
    push_str(&mut out, "backup-");
    push_str(&mut out, stamp);
    push_str(&mut out, ".zip");
    string_of(&out)
}

/// A backup taken at a time written with digits and dashes (as the backup
/// page writes it) gets a name that the download and delete pages accept.
pub proof fn law_new_backups_are_reachable(stamp: Seq<char>)
    requires
        forall|i: int| 0 <= i < stamp.len() ==> is_digit(#[trigger] stamp[i]) || stamp[i] == '-',
    ensures
        spec_is_safe_backup_filename(spec_backup_file_name(stamp)),
{
    reveal_strlit("backup-");
    reveal_strlit(".zip");
    reveal_strlit("..");
    let name = spec_backup_file_name(stamp);
    let n = name.len();
    assert(n == stamp.len() + 11);
    assert(name.subrange(0, 7) =~= "backup-"@);
    assert(name.subrange(n - 4, n as int) =~= ".zip"@);
    assert forall|i: int| 0 <= i < n implies (name[i] == '.' <==> i == n - 4) && name[i] != '/'
        && name[i] != '\\' by {
        if 7 <= i < 7 + stamp.len() {
            assert(name[i] == stamp[i - 7]);
        }
    }
    assert(!spec_has_char(name, '/'));
    assert(!spec_has_char(name, '\\'));
    assert(!spec_contains(name, ".."@)) by {
        if spec_contains(name, ".."@) {
            let i = choose|i: int| crate::text::occurs_at(name, ".."@, i);
            assert(name.subrange(i, i + 2) == ".."@);
            assert(name[i] == name.subrange(i, i + 2)[0]);
            assert(name[i + 1] == name.subrange(i, i + 2)[1]);
        }
    }
}

pub open spec fn spec_backup_path(file_name: Seq<char>) -> Seq<char> {
    BACKUP_DIR@ + "/"@ + file_name
}

/// The path of a file in the backup directory.
pub fn backup_path(file_name: &str) -> (r: String)
    ensures
        r@ == spec_backup_path(file_name@),
{
    let mut out: Vec<char> = Vec::new();
    push_str(&mut out, BACKUP_DIR);
    push_str(&mut out, "/");
    push_str(&mut out, file_name);
    string_of(&out)
}

pub open spec fn spec_snapshot_path(stamp: Seq<char>) -> Seq<char> {
    BACKUP_DIR@ + "/tmp-"@ + stamp + ".db"@
}

/// Where the database snapshot for the backup at `stamp` is written before
/// it is zipped.
pub fn snapshot_path(stamp: &str) -> (r: String)
    ensures
        r@ == spec_snapshot_path(stamp@),
{
    let mut out: Vec<char> = Vec::new();
    push_str(&mut out, BACKUP_DIR);
    push_str(&mut out, "/tmp-");
    push_str(&mut out, stamp);
    push_str(&mut out, ".db");
    string_of(&out)
}

// ---------------------------------------------------------------------------
// Listing order
// ---------------------------------------------------------------------------
/// `a` sorts before `b`: the first character where they differ is smaller
/// in `a`, or `a` is a proper prefix of `b`. This is the order of `str`'s
/// comparison, since UTF-8 keeps the order of code points.
pub open spec fn text_lt(a: Seq<char>, b: Seq<char>) -> bool
    decreases a.len(),
{
    if b.len() == 0 {
        false
    } else if a.len() == 0 {
        true
    } else if a[0] != b[0] {
        (a[0] as u32) < (b[0] as u32)
    } else {
        text_lt(a.drop_first(), b.drop_first())
    }
}

proof fn lemma_lt_asym(a: Seq<char>, b: Seq<char>)
    ensures
        text_lt(a, b) ==> !text_lt(b, a),
        !text_lt(a, a),
    decreases a.len(),
{
    if a.len() > 0 && b.len() > 0 && a[0] == b[0] {
        lemma_lt_asym(a.drop_first(), b.drop_first());
    }
    if a.len() > 0 {
        lemma_lt_asym(a.drop_first(), a.drop_first());
    }
}

proof fn lemma_lt_trans(a: Seq<char>, b: Seq<char>, c: Seq<char>)
    requires
        text_lt(a, b),
        text_lt(b, c),
    ensures
        text_lt(a, c),
    decreases a.len(),
{
    if a.len() > 0 && b.len() > 0 && c.len() > 0 && a[0] == b[0] && b[0] == c[0] {
        lemma_lt_trans(a.drop_first(), b.drop_first(), c.drop_first());
    }
}

proof fn lemma_lt_total(a: Seq<char>, b: Seq<char>)
    ensures
        a == b || text_lt(a, b) || text_lt(b, a),
    decreases a.len(),
{
    if a.len() > 0 && b.len() > 0 {
        if a[0] == b[0] {
            lemma_lt_total(a.drop_first(), b.drop_first());
            if a.drop_first() == b.drop_first() {
                assert(a =~= seq![a[0]] + a.drop_first());
                assert(b =~= seq![b[0]] + b.drop_first());
            }
        } else {
            vstd::utf8::char_u32_cast(a[0], a[0] as u32);
            vstd::utf8::char_u32_cast(b[0], b[0] as u32);
            assert((a[0] as u32) != (b[0] as u32));
        }
    } else if a.len() == 0 && b.len() == 0 {
        assert(a =~= b);
    }
}

/// Whether `a` sorts before `b`.
pub fn text_less(a: &str, b: &str) -> (r: bool)
    ensures
        r == text_lt(a@, b@),
{
    let x = chars_of(a);
    let y = chars_of(b);
    let mut i: usize = 0;
    assert(x@.skip(0) =~= x@);
    assert(y@.skip(0) =~= y@);
    while i < x.len() && i < y.len() && x[i] == y[i]
        invariant
            i <= x.len(),
            i <= y.len(),
            text_lt(x@, y@) == text_lt(x@.skip(i as int), y@.skip(i as int)),
        decreases x.len() - i,
    {
        assert(x@.skip(i as int).drop_first() =~= x@.skip(i + 1));
        assert(y@.skip(i as int).drop_first() =~= y@.skip(i + 1));
        i = i + 1;
    }
    if i == y.len() {
        false
    } else if i == x.len() {
        true
    } else {
        proof {
            assert(x@.skip(i as int)[0] == x@[i as int]);
            assert(y@.skip(i as int)[0] == y@[i as int]);
        }
        (x[i] as u32) < (y[i] as u32)
    }
}

/// A backup as the backups page lists it.
pub struct BackupRow {
    pub filename: String,
    pub size_display: String,
    pub created_display: String,
}

/// No row sorts after a later one by file name: newest (largest name) first.
pub open spec fn newest_first(rows: Seq<BackupRow>) -> bool {
    forall|i: int, j: int|
        0 <= i < j < rows.len() ==> !text_lt(#[trigger] rows[i].filename@, #[trigger] rows[j].filename@)
}

/// The rows called `f`.
pub open spec fn named(f: Seq<char>) -> spec_fn(BackupRow) -> bool {
    |row: BackupRow| row.filename@ == f
}

/// Inserting `x` at `k`, where no row from `k` on has `x`'s name, puts `x`
/// after every row of its name and leaves the rows of other names as they
/// were.
proof fn lemma_insert_after_same_name(before: Seq<BackupRow>, k: int, x: BackupRow, f: Seq<char>)
    requires
        0 <= k <= before.len(),
        forall|b: int| k <= b < before.len() ==> (#[trigger] before[b]).filename@ != x.filename@,
    ensures
        before.insert(k, x).filter(named(f)) == if f == x.filename@ {
            before.filter(named(f)).push(x)
        } else {
            before.filter(named(f))
        },
{
    let p = named(f);
    let head = before.take(k);
    let tail = before.skip(k);
    assert(before.insert(k, x) =~= (head + seq![x]) + tail);
    assert(before =~= head + tail);
    assert(seq![x] =~= Seq::<BackupRow>::empty().push(x));
    Seq::filter_distributes_over_add(head + seq![x], tail, p);
    Seq::filter_distributes_over_add(head, seq![x], p);
    Seq::filter_distributes_over_add(head, tail, p);
    Seq::<BackupRow>::empty().lemma_filter_push(x, p);
    assert(Seq::<BackupRow>::empty().filter(p) =~= Seq::<BackupRow>::empty()) by {
        reveal(Seq::filter);
    }
    if f == x.filename@ {
        assert(tail.all(|y: BackupRow| !p(y))) by {
            assert forall|j: int| 0 <= j < tail.len() implies !p(#[trigger] tail[j]) by {
                assert(tail[j] == before[k + j]);
            }
        }
        tail.lemma_all_neg_filter_empty(p);
        assert(tail.filter(p) =~= Seq::<BackupRow>::empty());
        assert(head.filter(p) + seq![x] =~= (head.filter(p) + tail.filter(p)).push(x));
    } else {
        assert(head.filter(p) + Seq::<BackupRow>::empty() =~= head.filter(p));
    }
}

/// The backups in the order the page lists them: by file name, largest
/// first (the names hold the time they were taken), rows with the same name
/// keeping their order.
pub fn sort_newest_first(rows: Vec<BackupRow>) -> (r: Vec<BackupRow>)
    ensures
        r@.to_multiset() == rows@.to_multiset(),
        newest_first(r@),
        forall|f: Seq<char>| #[trigger] r@.filter(named(f)) == rows@.filter(named(f)),
{
    broadcast use vstd::seq_lib::to_multiset_insert;
    broadcast use vstd::seq_lib::to_multiset_build;

    let ghost orig = rows@;
    let mut rest = rows;
    let mut out: Vec<BackupRow> = Vec::new();
    let n = rest.len();
    let mut i: usize = 0;
    assert(orig.skip(0) =~= orig);
    assert(orig.take(0) =~= Seq::<BackupRow>::empty());
    while i < n
        invariant
            n == orig.len(),
            i <= n,
            rest@ == orig.skip(i as int),
            out@.to_multiset() == orig.take(i as int).to_multiset(),
            newest_first(out@),
            forall|f: Seq<char>| #[trigger] out@.filter(named(f)) == orig.take(i as int).filter(named(f)),
        decreases n - i,
    {
        let x = rest.remove(0);
        assert(x == orig[i as int]);
        assert(rest@ =~= orig.skip(i + 1));
        let mut k: usize = 0;
        while k < out.len() && !text_less(out[k].filename.as_str(), x.filename.as_str())
            invariant
                k <= out.len(),
                forall|a: int| 0 <= a < k ==> !text_lt(#[trigger] out@[a].filename@, x.filename@),
            decreases out.len() - k,
        {
            k = k + 1;
        }
        proof {
            let s = out@;
            assert forall|b: int| k <= b < s.len() implies (#[trigger] s[b]).filename@ != x.filename@ by {
                assert(text_lt(s[k as int].filename@, x.filename@));
                if b > k {
                    assert(!text_lt(s[k as int].filename@, s[b].filename@));
                    lemma_lt_total(s[k as int].filename@, s[b].filename@);
                    if text_lt(s[b].filename@, s[k as int].filename@) {
                        lemma_lt_trans(s[b].filename@, s[k as int].filename@, x.filename@);
                    }
                }
                lemma_lt_asym(x.filename@, x.filename@);
            }
            if k < s.len() {
                assert(text_lt(s[k as int].filename@, x.filename@));
                assert forall|b: int| k <= b < s.len() implies !text_lt(
                    x.filename@,
                    #[trigger] s[b].filename@,
                ) by {
                    if b > k {
                        assert(!text_lt(s[k as int].filename@, s[b].filename@));
                        lemma_lt_total(s[k as int].filename@, s[b].filename@);
                        if text_lt(s[b].filename@, s[k as int].filename@) {
                            lemma_lt_trans(s[b].filename@, s[k as int].filename@, x.filename@);
                        }
                    }
                    lemma_lt_asym(s[b].filename@, x.filename@);
                }
            }
        }
        let ghost before = out@;
        out.insert(k, x);
        proof {
            let t = out@;
            assert(t == before.insert(k as int, x));
            assert forall|a: int, b: int| 0 <= a < b < t.len() implies !text_lt(
                #[trigger] t[a].filename@,
                #[trigger] t[b].filename@,
            ) by {
                if a < k && b < k {
                    assert(t[a] == before[a] && t[b] == before[b]);
                } else if a < k && b == k {
                    assert(t[a] == before[a] && t[b] == x);
                } else if a < k {
                    assert(t[a] == before[a] && t[b] == before[b - 1]);
                    lemma_lt_total(before[a].filename@, x.filename@);
                    assert(!text_lt(before[a].filename@, before[b - 1].filename@));
                } else if a == k {
                    assert(t[a] == x && t[b] == before[b - 1]);
                } else {
                    assert(t[a] == before[a - 1] && t[b] == before[b - 1]);
                }
            }
            assert(orig.take(i + 1) =~= orig.take(i as int).push(x));
            assert forall|f: Seq<char>| #[trigger] t.filter(named(f)) == orig.take(i + 1).filter(named(f)) by {
                lemma_insert_after_same_name(before, k as int, x, f);
                orig.take(i as int).lemma_filter_push(x, named(f));
            }
            vstd::seq_lib::to_multiset_insert(before, k as int, x);
            vstd::seq_lib::to_multiset_build(orig.take(i as int), x);
        }
        i = i + 1;
    }
    assert(orig.take(n as int) =~= orig);
    out
}

} // verus!

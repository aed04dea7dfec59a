//! The plan of a render: how many workers there are, which rows of the image
//! each of them gets, and how what they hand in becomes the image body.

use crate::decimal::{push_decimal, spec_decimal};
use vstd::prelude::*;
use vstd::string::StringExecFns;

verus! {

/// The rows `start..end` of the image: the share of one worker.
#[derive(Clone, Copy, Debug)]
pub struct Band {
    pub start: i32,
    pub end: i32,
}

/// The first row of worker `tid`'s band, where `workers` workers share an
/// image of `height` rows.
pub open spec fn band_start(height: int, workers: int, tid: int) -> int {
    (height / workers) * tid
}

/// The row after the last of worker `tid`'s band. Every worker gets
/// `height / workers` rows; the last one also takes what is left over.
pub open spec fn band_end(height: int, workers: int, tid: int) -> int {
    if tid == workers - 1 {
        height
    } else {
        (height / workers) * (tid + 1)
    }
}

/// The worker whose band holds `row`.
pub open spec fn band_of_row(height: int, workers: int, row: int) -> int {
    let per = height / workers;
    if per == 0 || row / per >= workers - 1 {
        workers - 1
    } else {
        row / per
    }
}

/// Two thirds of the CPUs, rounded down, so that the host stays responsive;
/// never less than one worker and never more than an `i32` holds.
pub open spec fn spec_worker_count(cpus: int) -> int {
    let share = cpus * 2 / 3;
    if share < 1 {
        1
    } else if share > i32::MAX {
        i32::MAX as int
    } else {
        share
    }
}

/// Row `row` lies in the `t`-th run of `per` rows exactly when `row / per`
/// is `t`, and at or after its start exactly when `row / per` is at least `t`.
proof fn lemma_row_in_slot(per: int, row: int, t: int)
    requires
        per > 0,
        row >= 0,
    ensures
        (per * t <= row < per * (t + 1)) <==> row / per == t,
        per * t <= row <==> row / per >= t,
{
    vstd::arithmetic::div_mod::lemma_fundamental_div_mod(row, per);
    vstd::arithmetic::div_mod::lemma_mod_bound(row, per);
    let q = row / per;
    assert(row == per * q + row % per);
    if q >= t {
        assert(per * q >= per * t) by (nonlinear_arith)
            requires
                per > 0,
                q >= t,
        ;
    } else {
        assert(per * (q + 1) <= per * t) by (nonlinear_arith)
            requires
                per > 0,
                q + 1 <= t,
        ;
        assert(per * (q + 1) == per * q + per) by (nonlinear_arith);
    }
    if q <= t {
        assert(per * q <= per * t) by (nonlinear_arith)
            requires
                per > 0,
                q <= t,
        ;
        assert(per * (t + 1) == per * t + per) by (nonlinear_arith);
    } else {
        assert(per * q >= per * (t + 1)) by (nonlinear_arith)
            requires
                per > 0,
                q >= t + 1,
        ;
    }
}

/// The bands split the image: they follow one another from row 0 to the last
/// row without a gap, and every row lies in the band of exactly one worker.
pub proof fn lemma_bands_cover_rows_once(height: int, workers: int)
    requires
        height >= 0,
        workers >= 1,
    ensures
        band_start(height, workers, 0) == 0,
        band_end(height, workers, workers - 1) == height,
        forall|tid: int|
            0 <= tid < workers ==> 0 <= #[trigger] band_start(height, workers, tid) <= band_end(
                height,
                workers,
                tid,
            ) <= height,
        forall|tid: int|
            0 <= tid < workers - 1 ==> #[trigger] band_end(height, workers, tid) == band_start(
                height,
                workers,
                tid + 1,
            ),
        forall|row: int| 0 <= row < height ==> 0 <= #[trigger] band_of_row(height, workers, row) < workers,
        forall|row: int, tid: int|
            0 <= row < height && 0 <= tid < workers ==> ((#[trigger] band_start(height, workers, tid)
                <= row < band_end(height, workers, tid)) <==> tid == #[trigger] band_of_row(
                height,
                workers,
                row,
            )),
{
    let per = height / workers;
    vstd::arithmetic::div_mod::lemma_fundamental_div_mod(height, workers);
    vstd::arithmetic::div_mod::lemma_mod_bound(height, workers);
    vstd::arithmetic::div_mod::lemma_div_pos_is_pos(height, workers);
    assert(0 <= per);
    assert(per * workers <= height) by (nonlinear_arith)
        requires
            height == workers * per + height % workers,
            0 <= height % workers,
    ;
    assert(per * 0 == 0) by (nonlinear_arith);
    assert forall|tid: int| 0 <= tid < workers implies 0 <= #[trigger] band_start(
        height,
        workers,
        tid,
    ) <= band_end(height, workers, tid) <= height by {
        assert(0 <= per * tid <= per * (tid + 1) <= per * workers) by (nonlinear_arith)
            requires
                0 <= per,
                0 <= tid < workers,
        ;
    }
    assert forall|row: int| 0 <= row < height implies 0 <= #[trigger] band_of_row(
        height,
        workers,
        row,
    ) < workers by {
        if per > 0 {
            vstd::arithmetic::div_mod::lemma_div_pos_is_pos(row, per);
        }
    }
    assert forall|row: int, tid: int| 0 <= row < height && 0 <= tid < workers implies ((
    #[trigger] band_start(height, workers, tid) <= row < band_end(height, workers, tid)) <==> tid
        == #[trigger] band_of_row(height, workers, row)) by {
        if per == 0 {
            assert(per * tid == 0) by (nonlinear_arith)
                requires
                    per == 0,
            ;
            assert(per * (tid + 1) == 0) by (nonlinear_arith)
                requires
                    per == 0,
            ;
        } else {
            lemma_row_in_slot(per, row, tid);
            lemma_row_in_slot(per, row, workers - 1);
        }
    }
}

/// The number of workers for a host with `cpus` logical CPUs.
pub fn worker_count(cpus: usize) -> (n: i32)
    ensures
        n == spec_worker_count(cpus as int),
        n >= 1,
{
    let thirds: usize = cpus / 3;
    let rest: usize = cpus % 3;
    // two thirds of cpus, without forming 2 * cpus
    let share: usize = thirds * 2 + rest * 2 / 3;
    assert(share == cpus * 2 / 3);
    if share < 1 {
        1
    } else if share > 0x7fff_ffff {
        0x7fff_ffff
    } else {
        share as i32
    }
}

/// The number of logical CPUs that this process can use, as `num_cpus::get`
/// reports it. The answer depends on the host and may change between calls;
/// nothing is claimed of it.
#[verifier::external_body]
fn logical_cpus() -> (n: usize) {
    num_cpus::get()
}

/// The number of workers for the host this process runs on.
pub fn workers() -> (n: i32)
    ensures
        n >= 1,
        exists|cpus: int| 0 <= cpus && n == spec_worker_count(cpus),
{
    let cpus = logical_cpus();
    worker_count(cpus)
}

/// The band of worker `tid`, where `workers` workers share `image_height`
/// rows.
pub fn band(image_height: i32, workers: i32, tid: i32) -> (b: Band)
    requires
        image_height >= 0,
        workers >= 1,
        0 <= tid < workers,
    ensures
        b.start == band_start(image_height as int, workers as int, tid as int),
        b.end == band_end(image_height as int, workers as int, tid as int),
        0 <= b.start <= b.end <= image_height,
{
    proof {
        lemma_bands_cover_rows_once(image_height as int, workers as int);
    }
    let per: i32 = image_height / workers;
    assert(0 <= per * tid <= per * (tid + 1) <= per * workers <= image_height) by (nonlinear_arith)
        requires
            per == image_height as int / workers as int,
            image_height >= 0,
            workers >= 1,
            0 <= tid < workers,
    ;
    let start: i32 = per * tid;
    let end: i32 = if tid == workers - 1 {
        image_height
    } else {
        per * (tid + 1)
    };
    Band { start, end }
}

/// The bands of all workers, in the order of the workers.
pub fn bands(image_height: i32, workers: i32) -> (plan: Vec<Band>)
    requires
        image_height >= 0,
        workers >= 1,
    ensures
        plan@.len() == workers,
        forall|tid: int|
            0 <= tid < workers ==> (#[trigger] plan@[tid]).start == band_start(
                image_height as int,
                workers as int,
                tid,
            ) && plan@[tid].end == band_end(image_height as int, workers as int, tid),
        forall|row: int|
            0 <= row < image_height ==> {
                let owner = #[trigger] band_of_row(image_height as int, workers as int, row);
                &&& 0 <= owner < workers
                &&& plan@[owner].start <= row < plan@[owner].end
            },
        forall|row: int, tid: int|
            0 <= tid < workers && (#[trigger] plan@[tid]).start <= row < plan@[tid].end ==> 0 <= row
                < image_height && tid == #[trigger] band_of_row(
                image_height as int,
                workers as int,
                row,
            ),
{
    let mut plan: Vec<Band> = Vec::new();
    let mut tid: i32 = 0;
    while tid < workers
        invariant
            image_height >= 0,
            workers >= 1,
            0 <= tid <= workers,
            plan@.len() == tid,
            forall|t: int|
                0 <= t < tid ==> (#[trigger] plan@[t]).start == band_start(
                    image_height as int,
                    workers as int,
                    t,
                ) && plan@[t].end == band_end(image_height as int, workers as int, t),
        decreases workers - tid,
    {
        let b = band(image_height, workers, tid);
        plan.push(b);
        tid = tid + 1;
    }
    proof {
        lemma_bands_cover_rows_once(image_height as int, workers as int);
    }
    plan
}

/// The head of an image of `width` by `height` pixels: the format's name,
/// the two dimensions, and 255, the greatest value of a channel, on three
/// lines.
pub open spec fn spec_header(width: int, height: int) -> Seq<char> {
    seq!['P', '3', '\n'] + spec_decimal(width) + seq![' '] + spec_decimal(height) + seq![
        '\n',
        '2',
        '5',
        '5',
        '\n',
    ]
}

/// The head of an image of `width` by `height` pixels.
pub fn header(width: i32, height: i32) -> (out: String)
    ensures
        out@ == spec_header(width as int, height as int),
{
    proof {
        reveal_strlit("P3\n");
        reveal_strlit(" ");
        reveal_strlit("\n255\n");
    }
    let mut out = String::new();
    out.append("P3\n");
    push_decimal(&mut out, width);
    out.append(" ");
    push_decimal(&mut out, height);
    out.append("\n255\n");
    assert(out@ =~= spec_header(width as int, height as int));
    out
}

/// What the workers hand in, as the assembly reads it: for each part the
/// first row of its band and the text of its pixels.
pub open spec fn parts_view(parts: Seq<(i32, String)>) -> Seq<(int, Seq<char>)> {
    parts.map_values(|p: (i32, String)| (p.0 as int, p.1@))
}

/// The index of the part that comes first in the image: the one with the
/// least first row, and among equals the one that was handed in first.
pub open spec fn first_least(parts: Seq<(int, Seq<char>)>) -> int
    decreases parts.len(),
{
    if parts.len() <= 1 {
        0
    } else {
        let k = first_least(parts.drop_last());
        if parts.last().0 < parts[k].0 {
            parts.len() - 1
        } else {
            k
        }
    }
}

/// The text of the image body: the part that comes first, followed by the
/// assembly of the others.
pub open spec fn spec_assemble(parts: Seq<(int, Seq<char>)>) -> Seq<char>
    decreases parts.len(),
{
    if parts.len() == 0 {
        Seq::empty()
    } else {
        let k = first_least(parts);
        if 0 <= k < parts.len() {
            parts[k].1 + spec_assemble(parts.remove(k))
        } else {
            Seq::empty()
        }
    }
}

/// The texts of the parts one after another, in the order given.
pub open spec fn spec_concat(parts: Seq<(int, Seq<char>)>) -> Seq<char>
    decreases parts.len(),
{
    if parts.len() == 0 {
        Seq::empty()
    } else {
        parts[0].1 + spec_concat(parts.drop_first())
    }
}

/// `first_least` names a part, one whose first row no other part undercuts
/// and no earlier part equals.
pub proof fn lemma_first_least(parts: Seq<(int, Seq<char>)>)
    requires
        parts.len() > 0,
    ensures
        0 <= first_least(parts) < parts.len(),
        forall|j: int| 0 <= j < parts.len() ==> parts[first_least(parts)].0 <= (#[trigger] parts[j]).0,
        forall|j: int| 0 <= j < first_least(parts) ==> parts[first_least(parts)].0 < (#[trigger] parts[j]).0,
    decreases parts.len(),
{
    if parts.len() > 1 {
        let front = parts.drop_last();
        lemma_first_least(front);
        let k = first_least(front);
        assert(forall|j: int| 0 <= j < front.len() ==> front[j] == parts[j]);
    }
}

/// Only one index has the two properties of `first_least`.
proof fn lemma_first_least_unique(parts: Seq<(int, Seq<char>)>, k: int)
    requires
        0 <= k < parts.len(),
        forall|j: int| 0 <= j < parts.len() ==> parts[k].0 <= (#[trigger] parts[j]).0,
        forall|j: int| 0 <= j < k ==> parts[k].0 < (#[trigger] parts[j]).0,
    ensures
        first_least(parts) == k,
{
    lemma_first_least(parts);
    let f = first_least(parts);
    if f < k {
        assert(parts[k].0 < parts[f].0);
    } else if k < f {
        assert(parts[f].0 < parts[k].0);
    }
}

/// No two different parts that both hold text start on the same row.
pub open spec fn one_text_per_row(parts: Seq<(int, Seq<char>)>) -> bool {
    forall|i: int, j: int|
        0 <= i < parts.len() && 0 <= j < parts.len() && (#[trigger] parts[i]).0 == (
        #[trigger] parts[j]).0 && parts[i] != parts[j] ==> parts[i].1.len() == 0 || parts[j].1.len()
            == 0
}

/// Parts listed by first row are joined in the order in which they stand.
pub proof fn lemma_assemble_in_row_order(parts: Seq<(int, Seq<char>)>)
    requires
        forall|i: int, j: int|
            0 <= i <= j < parts.len() ==> (#[trigger] parts[i]).0 <= (#[trigger] parts[j]).0,
    ensures
        spec_assemble(parts) == spec_concat(parts),
    decreases parts.len(),
{
    if parts.len() > 0 {
        lemma_first_least(parts);
        let k = first_least(parts);
        if k > 0 {
            assert(parts[k].0 < parts[0].0);
            assert(parts[0].0 <= parts[k].0);
        }
        assert(parts.remove(0) =~= parts.drop_first());
        let tail = parts.drop_first();
        assert forall|i: int, j: int| 0 <= i <= j < tail.len() implies (#[trigger] tail[i]).0 <= (
        #[trigger] tail[j]).0 by {
            assert(tail[i] == parts[i + 1]);
            assert(tail[j] == parts[j + 1]);
        }
        lemma_assemble_in_row_order(tail);
    }
}

/// A part without text leaves no trace in the assembly.
pub proof fn lemma_assemble_skips_empty(parts: Seq<(int, Seq<char>)>, j: int)
    requires
        0 <= j < parts.len(),
        parts[j].1.len() == 0,
    ensures
        spec_assemble(parts) == spec_assemble(parts.remove(j)),
    decreases parts.len(),
{
    lemma_first_least(parts);
    let k = first_least(parts);
    if k == j {
        assert(parts[j].1 + spec_assemble(parts.remove(j)) =~= spec_assemble(parts.remove(j)));
    } else {
        let without = parts.remove(j);
        let k2 = if j < k {
            k - 1
        } else {
            k
        };
        let j2 = if k < j {
            j - 1
        } else {
            j
        };
        assert(without[k2] == parts[k]);
        assert forall|i: int| 0 <= i < without.len() implies without[k2].0 <= (
        #[trigger] without[i]).0 by {
            if i < j {
                assert(without[i] == parts[i]);
            } else {
                assert(without[i] == parts[i + 1]);
            }
        }
        assert forall|i: int| 0 <= i < k2 implies without[k2].0 < (#[trigger] without[i]).0 by {
            if i < j {
                assert(without[i] == parts[i]);
            } else {
                assert(without[i] == parts[i + 1]);
            }
        }
        lemma_first_least_unique(without, k2);
        let rest = parts.remove(k);
        assert(rest[j2] == parts[j]);
        assert(rest.remove(j2) =~= without.remove(k2));
        lemma_assemble_skips_empty(rest, j2);
    }
}

/// The assembly does not depend on the order in which the parts were handed
/// in, as long as no two different parts with text start on the same row.
pub proof fn lemma_assemble_any_order(a: Seq<(int, Seq<char>)>, b: Seq<(int, Seq<char>)>)
    requires
        a.to_multiset() == b.to_multiset(),
        one_text_per_row(a),
    ensures
        spec_assemble(a) == spec_assemble(b),
    decreases a.len(),
{
    a.to_multiset_ensures();
    b.to_multiset_ensures();
    assert(a.len() == b.len());
    if a.len() > 0 {
        lemma_first_least(a);
        lemma_first_least(b);
        let ka = first_least(a);
        let kb = first_least(b);
        let x = a[ka];
        let y = b[kb];
        assert(a.contains(x));
        assert(b.contains(y));
        assert(a.to_multiset().count(y) > 0);
        assert(b.to_multiset().count(x) > 0);
        assert(a.contains(y));
        assert(b.contains(x));
        let ia = choose|i: int| 0 <= i < a.len() && a[i] == y;
        let jb = choose|j: int| 0 <= j < b.len() && b[j] == x;
        assert(x.0 <= a[ia].0);
        assert(y.0 <= b[jb].0);
        if x == y {
            lemma_one_text_per_row_remove(a, ka);
            lemma_assemble_any_order(a.remove(ka), b.remove(kb));
        } else if x.1.len() == 0 {
            assert(x.1 + spec_assemble(a.remove(ka)) =~= spec_assemble(a.remove(ka)));
            lemma_assemble_skips_empty(b, jb);
            lemma_one_text_per_row_remove(a, ka);
            lemma_assemble_any_order(a.remove(ka), b.remove(jb));
        } else {
            assert(a[ka].0 == a[ia].0 && a[ka] != a[ia]);
            assert(y.1.len() == 0);
            assert(y.1 + spec_assemble(b.remove(kb)) =~= spec_assemble(b.remove(kb)));
            lemma_assemble_skips_empty(a, ia);
            lemma_one_text_per_row_remove(a, ia);
            lemma_assemble_any_order(a.remove(ia), b.remove(kb));
        }
    }
}

/// Taking a part away keeps `one_text_per_row`.
proof fn lemma_one_text_per_row_remove(parts: Seq<(int, Seq<char>)>, k: int)
    requires
        0 <= k < parts.len(),
        one_text_per_row(parts),
    ensures
        one_text_per_row(parts.remove(k)),
{
    let rest = parts.remove(k);
    assert forall|i: int, j: int|
        0 <= i < rest.len() && 0 <= j < rest.len() && (#[trigger] rest[i]).0 == (
        #[trigger] rest[j]).0 && rest[i] != rest[j] implies rest[i].1.len() == 0 || rest[j].1.len()
        == 0 by {
        let i0 = if i < k {
            i
        } else {
            i + 1
        };
        let j0 = if j < k {
            j
        } else {
            j + 1
        };
        assert(rest[i] == parts[i0]);
        assert(rest[j] == parts[j0]);
    }
}

/// However the workers' parts arrive, the assembled body is the text of the
/// bands from the top of the image to the bottom. `in_order` stands for what
/// the workers produce, listed by worker: each part starts on the first row of
/// its worker's band, and a band without rows has no text.
pub proof fn lemma_render_is_in_row_order(
    height: int,
    workers: int,
    in_order: Seq<(int, Seq<char>)>,
    arrival: Seq<(int, Seq<char>)>,
)
    requires
        height >= 0,
        workers >= 1,
        in_order.len() == workers,
        forall|tid: int|
            0 <= tid < workers ==> (#[trigger] in_order[tid]).0 == band_start(height, workers, tid),
        forall|tid: int|
            0 <= tid < workers && band_start(height, workers, tid) == band_end(height, workers, tid)
                ==> (#[trigger] in_order[tid]).1.len() == 0,
        arrival.to_multiset() == in_order.to_multiset(),
    ensures
        spec_assemble(arrival) == spec_concat(in_order),
{
    let per = height / workers;
    lemma_bands_cover_rows_once(height, workers);
    assert(0 <= per) by {
        vstd::arithmetic::div_mod::lemma_div_pos_is_pos(height, workers);
    }
    assert forall|i: int, j: int| 0 <= i <= j < in_order.len() implies (#[trigger] in_order[i]).0
        <= (#[trigger] in_order[j]).0 by {
        assert(per * i <= per * j) by (nonlinear_arith)
            requires
                0 <= per,
                i <= j,
        ;
    }
    lemma_assemble_in_row_order(in_order);
    assert forall|i: int, j: int|
        0 <= i < in_order.len() && 0 <= j < in_order.len() && (#[trigger] in_order[i]).0 == (
        #[trigger] in_order[j]).0 && in_order[i] != in_order[j] implies in_order[i].1.len() == 0
        || in_order[j].1.len() == 0 by {
        if per == 0 {
            assert(per * i == 0 && per * (i + 1) == 0 && per * j == 0 && per * (j + 1) == 0)
                by (nonlinear_arith)
                requires
                    per == 0,
            ;
        } else {
            assert(per * i == per * j ==> i == j) by (nonlinear_arith)
                requires
                    per > 0,
            ;
        }
    }
    lemma_assemble_any_order(in_order, arrival);
}

/// The index in `parts` of the part that comes first in the image.
fn first_part(parts: &Vec<(i32, String)>) -> (k: usize)
    requires
        parts@.len() > 0,
    ensures
        k == first_least(parts_view(parts@)),
        k < parts@.len(),
{
    let ghost all = parts_view(parts@);
    let mut k: usize = 0;
    let mut i: usize = 1;
    assert(all.take(1).len() == 1);
    while i < parts.len()
        invariant
            all == parts_view(parts@),
            1 <= i <= parts@.len(),
            k < i,
            k == first_least(all.take(i as int)),
        decreases parts@.len() - i,
    {
        proof {
            let next = all.take(i + 1);
            assert(next.drop_last() =~= all.take(i as int));
            assert(next.last() == all[i as int]);
            assert(next[k as int] == all[k as int]);
        }
        if parts[i].0 < parts[k].0 {
            k = i;
        }
        i = i + 1;
    }
    assert(all.take(parts@.len() as int) =~= all);
    k
}

/// Joins what the workers handed in, each part being the first row of a band
/// and the text of its pixels, into the text of the image body. The parts may
/// come in any order: the result lists them by first row.
pub fn assemble(parts: Vec<(i32, String)>) -> (out: String)
    ensures
        out@ == spec_assemble(parts_view(parts@)),
{
    let mut rest = parts;
    let mut out = String::new();
    while rest.len() > 0
        invariant
            out@ + spec_assemble(parts_view(rest@)) == spec_assemble(parts_view(parts@)),
        decreases rest@.len(),
    {
        let ghost before = parts_view(rest@);
        let ghost so_far = out@;
        let k = first_part(&rest);
        let part = rest.remove(k);
        out.append(part.1.as_str());
        proof {
            assert(parts_view(rest@) =~= before.remove(k as int));
            assert(before[k as int].1 == part.1@);
            assert((so_far + part.1@) + spec_assemble(before.remove(k as int)) =~= so_far + (part.1@
                + spec_assemble(before.remove(k as int))));
        }
    }
    assert(out@ + Seq::<char>::empty() =~= out@);
    out
}

} // verus!

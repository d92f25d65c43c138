//! The workload generator: the randomized content of one transaction attempt.
//!
//! A plan holds the scan probe keys (16 uppercase-hexadecimal characters
//! each) and the update tuples (a 200-byte payload, a 64-character
//! uppercase-hexadecimal string, and a target row id drawn uniformly from the
//! seeded row-id universe). A plan is a pure function of the generator's draw
//! history, so a worker re-run from the same seed produces the same plans.

use vstd::prelude::*;

use crate::rng::{bytes_of, draw_of, WorkerRng, EVENT_BYTES, EVENT_DRAW};

verus! {

/// The uppercase hexadecimal digit written for a value below sixteen.
pub open spec fn hex_digit(i: u64) -> u8 {
    if i < 10 {
        (48 + i) as u8
    } else {
        (55 + i) as u8
    }
}

/// Whether a byte is an uppercase hexadecimal digit.
pub open spec fn is_hex_digit(c: u8) -> bool {
    (48 <= c && c <= 57) || (65 <= c && c <= 70)
}

/// The uppercase hexadecimal digit for a drawn index.
fn hex_char(i: u64) -> (c: u8)
    requires
        i < 16,
    ensures
        c == hex_digit(i),
        is_hex_digit(c),
{
    if i < 10 {
        (48 + i) as u8
    } else {
        (55 + i) as u8
    }
}

/// The draw history after a fixed-length hexadecimal string was generated.
pub open spec fn hex_hist(h: Seq<(u64, u64)>, n: nat) -> Seq<(u64, u64)>
    decreases n,
{
    if n == 0 {
        h
    } else {
        hex_hist(h.push((EVENT_DRAW, 16u64)), (n - 1) as nat)
    }
}

/// The fixed-length hexadecimal string generated from a draw history.
pub open spec fn hex_string_spec(h: Seq<(u64, u64)>, n: nat) -> Seq<u8>
    decreases n,
{
    if n == 0 {
        Seq::empty()
    } else {
        seq![hex_digit(draw_of(h, 16))] + hex_string_spec(h.push((EVENT_DRAW, 16u64)), (n - 1) as nat)
    }
}

/// Draw one fixed-length uppercase-hexadecimal string, one digit per draw.
fn hex_string(rng: &mut WorkerRng, len: usize) -> (s: Vec<u8>)
    ensures
        s@.len() == len,
        s@ == hex_string_spec(old(rng).history(), len as nat),
        final(rng).history() == hex_hist(old(rng).history(), len as nat),
        forall|i: int| 0 <= i < s@.len() ==> is_hex_digit(#[trigger] s@[i]),
{
    let ghost h0 = rng.history();
    let mut s: Vec<u8> = Vec::new();
    let mut i: usize = 0;
    while i < len
        invariant
            i <= len,
            s@.len() == i,
            s@ + hex_string_spec(rng.history(), (len - i) as nat) == hex_string_spec(
                h0,
                len as nat,
            ),
            hex_hist(rng.history(), (len - i) as nat) == hex_hist(h0, len as nat),
            forall|k: int| 0 <= k < s@.len() ==> is_hex_digit(#[trigger] s@[k]),
        decreases len - i,
    {
        let ghost cur = rng.history();
        let ghost prev = s@;
        let r = rng.gen_below(16);
        let c = hex_char(r);
        s.push(c);
        proof {
            assert(hex_string_spec(cur, (len - i) as nat) == seq![hex_digit(draw_of(cur, 16))]
                + hex_string_spec(cur.push((EVENT_DRAW, 16u64)), (len - i - 1) as nat));
            assert(s@ + hex_string_spec(rng.history(), (len - (i + 1)) as nat) =~= prev
                + hex_string_spec(cur, (len - i) as nat));
        }
        i = i + 1;
    }
    proof {
        assert(s@ + hex_string_spec(rng.history(), 0) =~= s@);
    }
    s
}

/// One point update of a plan: a fresh payload, a fresh hexadecimal string,
/// and the row it targets.
#[derive(Clone, Debug, PartialEq, Eq)]
pub struct UpdateOp {
    pub payload: Vec<u8>,
    pub hex: Vec<u8>,
    pub row_id: u64,
}

/// The mathematical content of one update tuple.
#[verifier::ext_equal]
pub ghost struct UpdateOpView {
    pub payload: Seq<u8>,
    pub hex: Seq<u8>,
    pub row_id: u64,
}

impl View for UpdateOp {
    type V = UpdateOpView;

    open spec fn view(&self) -> UpdateOpView {
        UpdateOpView { payload: self.payload@, hex: self.hex@, row_id: self.row_id }
    }
}

/// The draw history after one update tuple was generated.
pub open spec fn update_hist(h: Seq<(u64, u64)>, universe: u64) -> Seq<(u64, u64)> {
    hex_hist(h.push((EVENT_BYTES, 200u64)), 64).push((EVENT_DRAW, universe))
}

/// The update tuple generated from a draw history: the payload bytes, then
/// the hexadecimal string, then the target row id.
pub open spec fn update_op_spec(h: Seq<(u64, u64)>, universe: u64) -> UpdateOpView {
    UpdateOpView {
        payload: bytes_of(h, 200),
        hex: hex_string_spec(h.push((EVENT_BYTES, 200u64)), 64),
        row_id: draw_of(hex_hist(h.push((EVENT_BYTES, 200u64)), 64), universe),
    }
}

/// Generate one update tuple: 200 payload bytes, a 64-character
/// uppercase-hexadecimal string, and a row id drawn uniformly from the
/// row-id universe.
fn update_op(rng: &mut WorkerRng, universe: u64) -> (u: UpdateOp)
    requires
        universe >= 1,
    ensures
        u@ == update_op_spec(old(rng).history(), universe),
        final(rng).history() == update_hist(old(rng).history(), universe),
        u.payload@.len() == 200,
        u.hex@.len() == 64,
        forall|i: int| 0 <= i < u.hex@.len() ==> is_hex_digit(#[trigger] u.hex@[i]),
        u.row_id < universe,
{
    let payload = rng.gen_bytes(200);
    let hex = hex_string(rng, 64);
    let row_id = rng.gen_below(universe);
    let u = UpdateOp { payload, hex, row_id };
    proof {
        assert(u@ =~= update_op_spec(old(rng).history(), universe));
    }
    u
}

/// The randomized content of one transaction attempt: the scan probe keys in
/// order, then the update tuples in order.
#[derive(Clone, Debug, PartialEq, Eq)]
pub struct TransactionPlan {
    pub scans: Vec<Vec<u8>>,
    pub updates: Vec<UpdateOp>,
}

/// The mathematical content of a plan.
#[verifier::ext_equal]
pub ghost struct PlanView {
    pub scans: Seq<Seq<u8>>,
    pub updates: Seq<UpdateOpView>,
}

/// The contents of a sequence of scan keys.
pub open spec fn keys_view(v: Seq<Vec<u8>>) -> Seq<Seq<u8>> {
    Seq::new(v.len(), |i: int| v[i]@)
}

/// The contents of a sequence of update tuples.
pub open spec fn updates_view(v: Seq<UpdateOp>) -> Seq<UpdateOpView> {
    Seq::new(v.len(), |i: int| v[i]@)
}

impl View for TransactionPlan {
    type V = PlanView;

    open spec fn view(&self) -> PlanView {
        PlanView { scans: keys_view(self.scans@), updates: updates_view(self.updates@) }
    }
}

/// The draw history after the scan keys of a plan were generated.
pub open spec fn scans_hist(h: Seq<(u64, u64)>, n: nat) -> Seq<(u64, u64)>
    decreases n,
{
    if n == 0 {
        h
    } else {
        scans_hist(hex_hist(h, 16), (n - 1) as nat)
    }
}

/// The scan keys generated from a draw history.
pub open spec fn scans_spec(h: Seq<(u64, u64)>, n: nat) -> Seq<Seq<u8>>
    decreases n,
{
    if n == 0 {
        Seq::empty()
    } else {
        seq![hex_string_spec(h, 16)] + scans_spec(hex_hist(h, 16), (n - 1) as nat)
    }
}

/// The draw history after the update tuples of a plan were generated.
pub open spec fn updates_hist(h: Seq<(u64, u64)>, n: nat, universe: u64) -> Seq<(u64, u64)>
    decreases n,
{
    if n == 0 {
        h
    } else {
        updates_hist(update_hist(h, universe), (n - 1) as nat, universe)
    }
}

/// The update tuples generated from a draw history.
pub open spec fn updates_spec(h: Seq<(u64, u64)>, n: nat, universe: u64) -> Seq<UpdateOpView>
    decreases n,
{
    if n == 0 {
        Seq::empty()
    } else {
        seq![update_op_spec(h, universe)] + updates_spec(
            update_hist(h, universe),
            (n - 1) as nat,
            universe,
        )
    }
}

/// The draw history after a whole plan was generated.
pub open spec fn plan_hist(h: Seq<(u64, u64)>, scan_count: nat, update_count: nat, universe: u64) -> Seq<
    (u64, u64),
> {
    updates_hist(scans_hist(h, scan_count), update_count, universe)
}

/// The plan generated from a draw history: scan keys first, then updates.
pub open spec fn plan_spec(h: Seq<(u64, u64)>, scan_count: nat, update_count: nat, universe: u64) -> PlanView {
    PlanView {
        scans: scans_spec(h, scan_count),
        updates: updates_spec(scans_hist(h, scan_count), update_count, universe),
    }
}

/// A well-formed plan: the requested number of scan keys, each exactly 16
/// uppercase-hexadecimal characters; the requested number of update tuples,
/// each with a 200-byte payload, a 64-character uppercase-hexadecimal string,
/// and a target row id inside the row-id universe.
pub open spec fn plan_wf(p: PlanView, scan_count: nat, update_count: nat, universe: u64) -> bool {
    &&& p.scans.len() == scan_count
    &&& forall|i: int| 0 <= i < p.scans.len() ==> (#[trigger] p.scans[i]).len() == 16
    &&& forall|i: int, j: int|
        0 <= i < p.scans.len() && 0 <= j < p.scans[i].len() ==> is_hex_digit(#[trigger] p.scans[i][j])
    &&& p.updates.len() == update_count
    &&& forall|i: int| 0 <= i < p.updates.len() ==> (#[trigger] p.updates[i]).payload.len() == 200
    &&& forall|i: int| 0 <= i < p.updates.len() ==> (#[trigger] p.updates[i]).hex.len() == 64
    &&& forall|i: int, j: int|
        0 <= i < p.updates.len() && 0 <= j < p.updates[i].hex.len() ==> is_hex_digit(
            #[trigger] p.updates[i].hex[j],
        )
    &&& forall|i: int| 0 <= i < p.updates.len() ==> (#[trigger] p.updates[i]).row_id < universe
}

/// Generate the plan of one transaction attempt: `scan_count` scan probe
/// keys, then `update_count` update tuples whose target row ids are drawn
/// uniformly from `[0, seed_row_count)`. Generation is pure: the plan and the
/// final generator state depend on nothing but the generator state handed in.
pub fn generate_plan(
    rng: &mut WorkerRng,
    scan_count: usize,
    update_count: usize,
    seed_row_count: u64,
) -> (p: TransactionPlan)
    requires
        seed_row_count >= 1,
    ensures
        p@ == plan_spec(old(rng).history(), scan_count as nat, update_count as nat, seed_row_count),
        final(rng).history() == plan_hist(
            old(rng).history(),
            scan_count as nat,
            update_count as nat,
            seed_row_count,
        ),
        plan_wf(p@, scan_count as nat, update_count as nat, seed_row_count),
{
    let ghost h0 = rng.history();
    let mut scans: Vec<Vec<u8>> = Vec::new();
    let mut i: usize = 0;
    while i < scan_count
        invariant
            i <= scan_count,
            scans@.len() == i,
            keys_view(scans@) + scans_spec(rng.history(), (scan_count - i) as nat) == scans_spec(
                h0,
                scan_count as nat,
            ),
            scans_hist(rng.history(), (scan_count - i) as nat) == scans_hist(h0, scan_count as nat),
            forall|k: int| 0 <= k < scans@.len() ==> (#[trigger] scans@[k])@.len() == 16,
            forall|k: int, j: int|
                0 <= k < scans@.len() && 0 <= j < scans@[k]@.len() ==> is_hex_digit(
                    #[trigger] scans@[k]@[j],
                ),
        decreases scan_count - i,
    {
        let ghost cur = rng.history();
        let ghost prev = scans@;
        let s = hex_string(rng, 16);
        scans.push(s);
        proof {
            assert(scans_spec(cur, (scan_count - i) as nat) == seq![hex_string_spec(cur, 16)]
                + scans_spec(hex_hist(cur, 16), (scan_count - i - 1) as nat));
            assert(keys_view(scans@) =~= keys_view(prev).push(s@));
            assert(keys_view(scans@) + scans_spec(rng.history(), (scan_count - (i + 1)) as nat)
                =~= keys_view(prev) + scans_spec(cur, (scan_count - i) as nat));
        }
        i = i + 1;
    }
    proof {
        assert(keys_view(scans@) + scans_spec(rng.history(), 0) =~= keys_view(scans@));
    }
    let ghost h1 = rng.history();
    let mut updates: Vec<UpdateOp> = Vec::new();
    let mut j: usize = 0;
    while j < update_count
        invariant
            j <= update_count,
            updates@.len() == j,
            seed_row_count >= 1,
            updates_view(updates@) + updates_spec(
                rng.history(),
                (update_count - j) as nat,
                seed_row_count,
            ) == updates_spec(h1, update_count as nat, seed_row_count),
            updates_hist(rng.history(), (update_count - j) as nat, seed_row_count) == updates_hist(
                h1,
                update_count as nat,
                seed_row_count,
            ),
            forall|k: int| 0 <= k < updates@.len() ==> (#[trigger] updates@[k])@.payload.len() == 200,
            forall|k: int| 0 <= k < updates@.len() ==> (#[trigger] updates@[k])@.hex.len() == 64,
            forall|k: int, l: int|
                0 <= k < updates@.len() && 0 <= l < updates@[k]@.hex.len() ==> is_hex_digit(
                    #[trigger] updates@[k]@.hex[l],
                ),
            forall|k: int| 0 <= k < updates@.len() ==> (#[trigger] updates@[k])@.row_id < seed_row_count,
        decreases update_count - j,
    {
        let ghost cur = rng.history();
        let ghost prev = updates@;
        let u = update_op(rng, seed_row_count);
        updates.push(u);
        proof {
            assert(updates_spec(cur, (update_count - j) as nat, seed_row_count) == seq![
                update_op_spec(cur, seed_row_count),
            ] + updates_spec(
                update_hist(cur, seed_row_count),
                (update_count - j - 1) as nat,
                seed_row_count,
            ));
            assert(updates_view(updates@) =~= updates_view(prev).push(u@));
            assert(updates_view(updates@) + updates_spec(
                rng.history(),
                (update_count - (j + 1)) as nat,
                seed_row_count,
            ) =~= updates_view(prev) + updates_spec(cur, (update_count - j) as nat, seed_row_count));
        }
        j = j + 1;
    }
    proof {
        assert(updates_view(updates@) + updates_spec(rng.history(), 0, seed_row_count)
            =~= updates_view(updates@));
    }
    let p = TransactionPlan { scans, updates };
    proof {
        assert(p@ =~= plan_spec(h0, scan_count as nat, update_count as nat, seed_row_count));
    }
    p
}

/// Re-running the workload generator from the same seeded generator state
/// yields the identical plan: a plan is a pure function of the generator's
/// draw history and the requested counts, with no other input.
pub proof fn lemma_plan_deterministic(
    p1: PlanView,
    p2: PlanView,
    h: Seq<(u64, u64)>,
    scan_count: nat,
    update_count: nat,
    universe: u64,
)
    requires
        p1 == plan_spec(h, scan_count, update_count, universe),
        p2 == plan_spec(h, scan_count, update_count, universe),
    ensures
        p1 == p2,
{
}

} // verus!

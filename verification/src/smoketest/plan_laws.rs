//! What the plans of the cases, and the numbers and texts in their messages, are good for.

use vstd::prelude::*;
use vstd::string::*;

use crate::smoketest::case_plan::{
    cycle_cell, cycle_row, cycle_rows, place_async_delay, place_grid_cycle, place_term_anchor,
    place_zoomed_normalize, CasePlan, CaseTuning, RequestOptions, Step,
};
use crate::smoketest::dump::{dump_text, escaped, escaped_char};
use crate::smoketest::frames::GridCell;
use crate::smoketest::ui_case::{
    config_activation, displays, hud, mini, notifications, reconnect, SessionPlan, SessionStep,
};
use crate::smoketest::windows::{format_points, fraction_digits};
use crate::text::dec;
use crate::text_laws::{all_digits, decimals_are_read_back, value_of};

verus! {

/// Whether a cell is expected at a step, then asked for, and then checked.
pub open spec fn tries_cell(steps: Seq<Step>, cell: GridCell, i: int) -> bool {
    &&& 0 <= i && i + 5 < steps.len()
    &&& steps[i] == Step::ExpectCell(cell)
    &&& steps[i + 2] == (Step::RequestGrid { cell, options: RequestOptions::Standard })
    &&& steps[i + 5] == Step::AssertFrame
}

/// How many placements are asked for.
pub open spec fn placements(steps: Seq<Step>) -> int
    decreases steps.len(),
{
    if steps.len() == 0 {
        0
    } else {
        placements(steps.drop_last()) + if steps.last() is RequestGrid {
            1int
        } else {
            0
        }
    }
}

proof fn placements_add_up(a: Seq<Step>, b: Seq<Step>)
    ensures
        placements(a + b) == placements(a) + placements(b),
    decreases b.len(),
{
    if b.len() == 0 {
        assert(a + b =~= a);
    } else {
        placements_add_up(a, b.drop_last());
        assert((a + b).drop_last() =~= a + b.drop_last());
        assert((a + b).last() == b.last());
    }
}

proof fn one_cell_asks_once(cell: GridCell)
    ensures
        placements(cycle_cell(cell)) == 1,
        tries_cell(cycle_cell(cell), cell, 3),
{
    reveal_with_fuel(placements, 12);
    let s = cycle_cell(cell);
    assert(s.drop_last().len() == 10);
    assert(s.drop_last().drop_last().len() == 9);
}

proof fn tried_within(a: Seq<Step>, b: Seq<Step>, cell: GridCell, i: int)
    ensures
        tries_cell(a, cell, i) ==> tries_cell(a + b, cell, i),
        tries_cell(b, cell, i) ==> tries_cell(a + b, cell, a.len() + i),
{
    if tries_cell(a, cell, i) {
        assert((a + b)[i] == a[i]);
        assert((a + b)[i + 2] == a[i + 2]);
        assert((a + b)[i + 5] == a[i + 5]);
    }
    if tries_cell(b, cell, i) {
        assert((a + b)[a.len() + i] == b[i]);
        assert((a + b)[a.len() + i + 2] == b[i + 2]);
        assert((a + b)[a.len() + i + 5] == b[i + 5]);
    }
}

proof fn a_row_tries_its_cells(tuning: CaseTuning, row: u32, n: u32, col: u32) -> (i: int)
    requires
        n <= tuning.grid_cols,
    ensures
        placements(cycle_row(tuning, row, n)) == n,
        col < n ==> tries_cell(
            cycle_row(tuning, row, n),
            GridCell { cols: tuning.grid_cols, rows: tuning.grid_rows, col, row },
            i,
        ),
    decreases n,
{
    if n == 0 {
        0
    } else {
        let last = (n - 1) as u32;
        let cell = GridCell { cols: tuning.grid_cols, rows: tuning.grid_rows, col: last, row };
        let before = cycle_row(tuning, row, last);
        let wanted = GridCell { cols: tuning.grid_cols, rows: tuning.grid_rows, col, row };
        let i = a_row_tries_its_cells(tuning, row, last, col);
        one_cell_asks_once(cell);
        placements_add_up(before, cycle_cell(cell));
        tried_within(before, cycle_cell(cell), wanted, i);
        tried_within(before, cycle_cell(cell), wanted, 3);
        if col == last {
            before.len() as int + 3
        } else {
            i
        }
    }
}

proof fn rows_try_their_cells(tuning: CaseTuning, n: u32, col: u32, row: u32) -> (i: int)
    requires
        n <= tuning.grid_rows,
        col < tuning.grid_cols,
    ensures
        placements(cycle_rows(tuning, n)) == n * tuning.grid_cols,
        row < n ==> tries_cell(
            cycle_rows(tuning, n),
            GridCell { cols: tuning.grid_cols, rows: tuning.grid_rows, col, row },
            i,
        ),
    decreases n,
{
    if n == 0 {
        0
    } else {
        let last = (n - 1) as u32;
        let before = cycle_rows(tuning, last);
        let more = cycle_row(tuning, last, tuning.grid_cols);
        let wanted = GridCell { cols: tuning.grid_cols, rows: tuning.grid_rows, col, row };
        let i = rows_try_their_cells(tuning, last, col, row);
        let j = a_row_tries_its_cells(tuning, last, tuning.grid_cols, col);
        placements_add_up(before, more);
        assert((n - 1) * tuning.grid_cols + tuning.grid_cols == n * tuning.grid_cols)
            by (nonlinear_arith);
        tried_within(before, more, wanted, i);
        tried_within(before, more, wanted, j);
        if row == last {
            before.len() as int + j
        } else {
            i
        }
    }
}

/// The cycle tries every cell of the grid, and no placement besides: each cell is
/// expected, asked for and checked, and as many placements are asked for as there are
/// cells.
pub proof fn the_cycle_tries_every_cell(tuning: CaseTuning, plan: CasePlan, col: u32, row: u32) -> (i:
    int)
    requires
        call_ensures(place_grid_cycle, (tuning,), plan),
        col < tuning.grid_cols,
        row < tuning.grid_rows,
    ensures
        tries_cell(
            plan.steps@,
            GridCell { cols: tuning.grid_cols, rows: tuning.grid_rows, col, row },
            i,
        ),
        placements(plan.steps@) == tuning.grid_rows * tuning.grid_cols,
{
    let cell = GridCell { cols: tuning.grid_cols, rows: tuning.grid_rows, col, row };
    let i = rows_try_their_cells(tuning, tuning.grid_rows, col, row);
    let head = plan.steps@.take(3);
    let rows = cycle_rows(tuning, tuning.grid_rows);
    let tail = plan.steps@.skip(3 + rows.len() as int);
    assert(plan.steps@ =~= head + rows + tail);
    assert(tail.len() == 6);
    tried_within(head, rows, cell, i);
    tried_within(head + rows, tail, cell, 3 + i);
    placements_add_up(head, rows);
    placements_add_up(head + rows, tail);
    reveal_with_fuel(placements, 8);
    assert(placements(head) == 0);
    assert(placements(tail) == 0);
    3 + i
}

/// Whether every cell that is asked for was expected before.
pub open spec fn asks_for_what_it_expects(steps: Seq<Step>) -> bool {
    forall|i: int|
        0 <= i < steps.len() && (#[trigger] steps[i]) is RequestGrid ==> exists|j: int|
            0 <= j < i && #[trigger] steps[j] == Step::ExpectCell(steps[i]->cell)
}

/// The plans that expect a cell ask for that very cell.
pub proof fn plans_ask_for_what_they_expect(
    tuning: CaseTuning,
    zoomed: CasePlan,
    late: CasePlan,
    term: CasePlan,
)
    requires
        call_ensures(place_zoomed_normalize, (tuning,), zoomed),
        call_ensures(place_async_delay, (), late),
        call_ensures(place_term_anchor, (tuning,), term),
    ensures
        asks_for_what_it_expects(zoomed.steps@),
        asks_for_what_it_expects(late.steps@),
        asks_for_what_it_expects(term.steps@),
{
    assert(zoomed.steps@[3] is ExpectCell);
    assert(late.steps@[4] is ExpectCell);
    assert(term.steps@[3] is ExpectCell);
}

/// The HUD cases wait until the driver is ready before anything else, list the windows,
/// and leave the menu at last; the displays are checked only in the case of the displays,
/// and only after the windows were listed.
pub proof fn hud_cases_list_before_they_check(
    full: SessionPlan,
    compact: SessionPlan,
    several: SessionPlan,
)
    requires
        call_ensures(hud, (), full),
        call_ensures(mini, (), compact),
        call_ensures(displays, (), several),
    ensures
        full.steps@.len() > 0 && full.steps@[0] is EnsureReady,
        full.steps@.last() == SessionStep::Press("esc"),
        compact.steps@ == full.steps@,
        full.config@ == compact.config@ && full.config@ == several.config@,
        full.style is Some && compact.style is Some && several.style is Some,
        full.style->Some_0@ == several.style->Some_0@,
        forall|i: int| 0 <= i < full.steps@.len() ==> !((#[trigger] full.steps@[i]) is CheckDisplays),
        several.steps@.len() == full.steps@.len() + 1,
        ({
            let n = several.steps@.len();
            &&& several.steps@[n - 1] == SessionStep::Press("esc")
            &&& several.steps@[n - 2] is CheckDisplays
            &&& several.steps@[n - 3] is ListWindows
        }),
{
}

/// The key that a case presses is one that it has waited for, and the notification that
/// it provokes is awaited before it is checked.
pub proof fn notifications_are_awaited_before_they_are_checked(plan: SessionPlan)
    requires
        call_ensures(notifications, (), plan),
    ensures
        ({
            let s = plan.steps@;
            &&& s.len() == 6
            &&& s[1] is AwaitIdent && s[2] is MarkAndPress
            &&& s[1]->AwaitIdent_0 == s[2]->MarkAndPress_0
            &&& s[3] is AwaitMessage
            &&& s[4] is AwaitNotification
            &&& s[5] is CheckNotification
        }),
{
}

/// A mended config is awaited by the binding that it was mended with, and a server that
/// comes back by the binding that it had.
pub proof fn bindings_show_that_the_server_is_back(mended: SessionPlan, back: SessionPlan)
    requires
        call_ensures(config_activation, (), mended),
        call_ensures(reconnect, (), back),
    ensures
        ({
            let s = mended.steps@;
            &&& s.len() == 4
            &&& s[0] is AwaitNotification
            &&& s[1] is RewriteConfig && s[2] is ActivateConfig && s[3] is AwaitIdent
            &&& s[1]->RewriteConfig_0 == s[3]->AwaitIdent_0
        }),
        ({
            let s = back.steps@;
            &&& s.len() == 4
            &&& s[0] is AwaitIdent && s[3] is AwaitIdent
            &&& s[0]->AwaitIdent_0 == s[3]->AwaitIdent_0
            &&& s[1] is ShutdownServer && s[2] is EnsureReady
        }),
{
}

proof fn values_add_up(a: Seq<char>, b: Seq<char>)
    ensures
        value_of(a + b) == value_of(a) * tens(b.len()) + value_of(b),
    decreases b.len(),
{
    if b.len() == 0 {
        assert(a + b =~= a);
    } else {
        values_add_up(a, b.drop_last());
        assert((a + b).drop_last() =~= a + b.drop_last());
        assert((a + b).last() == b.last());
        let x = value_of(a);
        let t = tens((b.len() - 1) as nat);
        assert(10 * (x * t + value_of(b.drop_last())) == x * (10 * t) + 10 * value_of(
            b.drop_last(),
        )) by (nonlinear_arith);
    }
}

/// A power of ten.
pub open spec fn tens(n: nat) -> int
    decreases n,
{
    if n == 0 {
        1
    } else {
        10 * tens((n - 1) as nat)
    }
}

/// What is left of a part after some decimals were taken.
spec fn leftover(part: int, n: nat) -> int
    decreases n,
{
    if part <= 0 || n == 0 {
        part
    } else {
        leftover(part * 10 % 1024, (n - 1) as nat)
    }
}

proof fn decimals_read_as_the_part(part: int, n: nat)
    requires
        0 <= part < 1024,
    ensures
        fraction_digits(part, n).len() <= n,
        all_digits(fraction_digits(part, n)),
        value_of(fraction_digits(part, n)) * 1024 + leftover(part, n) == part * tens(
            fraction_digits(part, n).len(),
        ),
    decreases n,
{
    let s = fraction_digits(part, n);
    if part > 0 && n > 0 {
        let d = part * 10 / 1024;
        let rest = part * 10 % 1024;
        let head = dec(d as nat);
        let tail = fraction_digits(rest, (n - 1) as nat);
        decimals_read_as_the_part(rest, (n - 1) as nat);
        assert(0 <= d < 10);
        decimals_are_read_back(d as nat);
        assert(head.len() == 1);
        values_add_up(head, tail);
        let t = tens(tail.len());
        assert(s =~= head + tail);
        assert(tens(s.len()) == 10 * t);
        assert((d * t + value_of(tail)) * 1024 + leftover(part, n) == part * (10 * t))
            by (nonlinear_arith)
            requires
                part * 10 == d * 1024 + rest,
                value_of(tail) * 1024 + leftover(part, n) == rest * t,
        ;
        assert forall|i: int| 0 <= i < s.len() implies '0' <= #[trigger] s[i] <= '9' by {
            if i == 0 {
                assert(s[0] == head[0]);
            } else {
                assert(s[i] == tail[i - 1]);
            }
        }
    } else {
        assert(tens(0) == 1);
    }
}

proof fn ten_decimals_leave_nothing(part: int, n: nat, step: int)
    requires
        0 <= part < 1024,
        n <= 10,
        step == bits(n),
        part % step == 0,
    ensures
        leftover(part, n) == 0,
    decreases n,
{
    if n == 0 {
        assert(part == 0) by (nonlinear_arith)
            requires
                0 <= part < 1024,
                part % 1024 == 0,
        ;
    } else if part > 0 {
        let rest = part * 10 % 1024;
        let wider = bits((n - 1) as nat);
        assert(wider == 2 * step);
        assert(1024int % wider == 0) by {
            assert(1024int % 1024int == 0);
            assert(1024int % 512int == 0);
            assert(1024int % 256int == 0);
            assert(1024int % 128int == 0);
            assert(1024int % 64int == 0);
            assert(1024int % 32int == 0);
            assert(1024int % 16int == 0);
            assert(1024int % 8int == 0);
            assert(1024int % 4int == 0);
            assert(1024int % 2int == 0);
        }
        assert(rest % wider == 0) by (nonlinear_arith)
            requires
                step > 0,
                wider == 2 * step,
                part % step == 0,
                1024int % wider == 0,
                rest == part * 10 % 1024,
        {
            let q = part / step;
            let m = 1024int / wider;
            assert(part == q * step);
            assert(part * 10 == (5 * q) * wider);
            let k = part * 10 / 1024;
            assert(part * 10 == k * 1024 + rest);
            assert(1024 == m * wider);
            assert(rest == (5 * q - k * m) * wider);
            vstd::arithmetic::div_mod::lemma_mod_multiples_basic(5 * q - k * m, wider);
        }
        ten_decimals_leave_nothing(rest, (n - 1) as nat, wider);
    }
}

/// The step of parts that so many decimals show in full.
spec fn bits(n: nat) -> int {
    if n == 0 {
        1024
    } else if n == 1 {
        512
    } else if n == 2 {
        256
    } else if n == 3 {
        128
    } else if n == 4 {
        64
    } else if n == 5 {
        32
    } else if n == 6 {
        16
    } else if n == 7 {
        8
    } else if n == 8 {
        4
    } else if n == 9 {
        2
    } else {
        1
    }
}

/// A length in points reads as that length: a minus sign for negative ones, the whole
/// points, and decimals that stand for the part of a point exactly.
pub proof fn lengths_read_as_points(units: i128, s: String) -> (r: (Seq<char>, Seq<char>))
    requires
        -8 * i64::MAX <= units <= 8 * i64::MAX,
        call_ensures(format_points, (units,), s),
    ensures
        ({
            let size = if units < 0 {
                -units
            } else {
                units as int
            };
            let digits = if units < 0 {
                s@.skip(1)
            } else {
                s@
            };
            &&& units < 0 ==> s@.len() > 0 && s@[0] == '-'
            &&& all_digits(r.0) && all_digits(r.1)
            &&& digits == if r.1.len() == 0 {
                r.0
            } else {
                r.0 + seq!['.'] + r.1
            }
            &&& size * tens(r.1.len()) == 1024 * (value_of(r.0) * tens(r.1.len()) + value_of(r.1))
        }),
{
    let size = if units < 0 {
        -units
    } else {
        units as int
    };
    let whole = dec((size / 1024) as nat);
    let part = size % 1024;
    let decimals = fraction_digits(part, 10);
    decimals_are_read_back((size / 1024) as nat);
    decimals_read_as_the_part(part, 10);
    assert(bits(10) == 1);
    ten_decimals_leave_nothing(part, 10, 1);
    reveal_strlit("-");
    reveal_strlit("");
    reveal_strlit(".");
    assert("."@ =~= seq!['.']);
    let t = tens(decimals.len());
    assert(size * t == 1024 * (value_of(whole) * t + value_of(decimals))) by (nonlinear_arith)
        requires
            size == 1024 * value_of(whole) + part,
            value_of(decimals) * 1024 == part * t,
    ;
    assert(part > 0 ==> decimals.len() > 0);
    if part == 0 {
        assert(decimals =~= Seq::empty());
    }
    let digits = if units < 0 {
        s@.skip(1)
    } else {
        s@
    };
    assert(digits =~= if decimals.len() == 0 {
        whole
    } else {
        whole + seq!['.'] + decimals
    });
    (whole, decimals)
}

proof fn plain_texts_are_not_escaped(s: Seq<char>)
    ensures
        (forall|i: int|
            0 <= i < s.len() ==> (#[trigger] s[i]) as u32 >= 0x20 && s[i] != '"' && s[i] != '\\'
                && !(0x7f <= s[i] as u32 <= 0x9f)) ==> escaped(s) == s,
        forall|i: int|
            0 <= i < escaped(s).len() ==> (#[trigger] escaped(s)[i]) as u32 >= 0x20 && !(0x7f
                <= escaped(s)[i] as u32 <= 0x9f),
    decreases s.len(),
{
    if s.len() > 0 {
        let before = s.drop_last();
        plain_texts_are_not_escaped(before);
        if forall|i: int|
            0 <= i < s.len() ==> (#[trigger] s[i]) as u32 >= 0x20 && s[i] != '"' && s[i] != '\\'
                && !(0x7f <= s[i] as u32 <= 0x9f) {
            assert forall|i: int| 0 <= i < before.len() implies (#[trigger] before[i]) as u32
                >= 0x20 && before[i] != '"' && before[i] != '\\' && !(0x7f <= before[i] as u32
                <= 0x9f) by {
                assert(before[i] == s[i]);
            }
            assert(s[s.len() - 1] == s.last());
            assert(escaped(s) =~= s);
        }
        let a = escaped(before);
        let b = escaped_char(s.last());
        assert forall|i: int| 0 <= i < escaped(s).len() implies (#[trigger] escaped(s)[i]) as u32
            >= 0x20 && !(0x7f <= escaped(s)[i] as u32 <= 0x9f) by {
            if i < a.len() {
                assert(escaped(s)[i] == a[i]);
            } else {
                assert(escaped(s)[i] == b[i - a.len()]);
            }
        }
    } else {
        assert(escaped(s) =~= s);
    }
}

/// A text in a message stands between quotes; one without quotes, backslashes and
/// control characters stands for itself, and no control character is ever shown as it
/// is.
pub proof fn shown_texts_are_harmless(s: &str, r: String)
    requires
        call_ensures(dump_text, (s,), r),
    ensures
        r@.len() >= 2 && r@[0] == '"' && r@.last() == '"',
        (forall|i: int|
            0 <= i < s@.len() ==> (#[trigger] s@[i]) as u32 >= 0x20 && s@[i] != '"' && s@[i]
                != '\\' && !(0x7f <= s@[i] as u32 <= 0x9f)) ==> r@ == seq!['"'] + s@ + seq!['"'],
        forall|i: int|
            0 <= i < r@.len() ==> (#[trigger] r@[i]) as u32 >= 0x20 && !(0x7f <= r@[i] as u32
                <= 0x9f),
{
    plain_texts_are_not_escaped(s@);
    reveal_strlit("\"");
    assert("\""@ =~= seq!['"']);
    let inner = escaped(s@);
    assert(r@ =~= seq!['"'] + inner + seq!['"']);
    assert forall|i: int| 0 <= i < r@.len() implies (#[trigger] r@[i]) as u32 >= 0x20 && !(0x7f
        <= r@[i] as u32 <= 0x9f) by {
        if 0 < i < r@.len() - 1 {
            assert(r@[i] == inner[i - 1]);
        }
    }
}

} // verus!

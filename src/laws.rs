//! Properties that span several calls: the shape of a job's report log, the
//! placement of results and the choice of encoder flags.
use vstd::prelude::*;
use crate::batch::{
    lemma_item_events, outcome_event, outcome_view, BatchRunner, BatchState, Tool,
};
use crate::invoke::{destination, quality_flags, EncodeOptions, FailureKind, ItemFailure};
use crate::types::Event;

verus! {

/// A started job opens with exactly one `Started`, carrying the size of the work
/// list; the progress reports stand at the odd positions and count 1, 2, ... in
/// order, one per item; a completed job reported progress for each item.
pub proof fn lemma_progress_numbering(r: BatchRunner)
    requires
        r.wf(),
        r.state != BatchState::Idle,
        r.tool_path is Some,
    ensures
        r.events()[0] == (Event::Started { total: r.total() }),
        forall|i: int| 1 <= i < r.events().len() ==> !(#[trigger] r.events()[i] is Started),
        forall|i: int|
            0 <= i < r.events().len() ==> match #[trigger] r.events()[i] {
                Event::Progress { current, total, file } => i % 2 == 1 && current == (i + 1) / 2
                    && total == r.total() && file == r.files()[current - 1],
                _ => true,
            },
        forall|j: int|
            0 <= j < r.next ==> #[trigger] r.events()[2 * j + 1] == (Event::Progress {
                current: (j + 1) as nat,
                total: r.total(),
                file: r.files()[j],
            }),
        r.state == BatchState::Completed ==> r.next == r.total() && r.events().len() == 2
            * r.total() + 2 && r.events().last() == Event::Completed,
{
    let files = r.files();
    let outs = r.outcomes@;
    let n = r.total();
    let k = r.next as nat;
    lemma_item_events(files, outs, n, k);
    let items = crate::batch::item_events(files, outs, n, k);
    let ev = r.events();
    assert forall|i: int| 1 <= i < 1 + 2 * k implies ev[i] == items[i - 1] by {}
    assert forall|i: int| 1 <= i < ev.len() implies !(#[trigger] ev[i] is Started) by {
        if i < 1 + 2 * k {
            let j = (i - 1) / 2;
            if (i - 1) % 2 == 0 {
                assert(items[2 * j] is Progress);
            } else {
                assert(items[2 * j + 1] == outcome_event(files[j], outs[j]));
            }
        }
    }
    assert forall|i: int| 0 <= i < ev.len() implies match #[trigger] ev[i] {
        Event::Progress { current, total, file } => i % 2 == 1 && current == (i + 1) / 2
            && total == n && file == files[current - 1],
        _ => true,
    } by {
        if 1 <= i < 1 + 2 * k {
            let j = (i - 1) / 2;
            if (i - 1) % 2 == 0 {
                assert(ev[i] == items[2 * j]);
            } else {
                assert(ev[i] == items[2 * j + 1]);
            }
        }
    }
    assert forall|j: int| 0 <= j < r.next implies #[trigger] ev[2 * j + 1] == (Event::Progress {
        current: (j + 1) as nat,
        total: n,
        file: files[j],
    }) by {
        assert(ev[2 * j + 1] == items[2 * j]);
    }
}

/// A job whose work list is empty reports exactly `Started` with a total of
/// zero, then `Completed`.
pub proof fn lemma_empty_job(r: BatchRunner)
    requires
        r.wf(),
        r.total() == 0,
        r.state != BatchState::Idle,
        r.tool_path is Some,
    ensures
        r.state == BatchState::Completed,
        r.events() == seq![Event::Started { total: 0 }, Event::Completed],
{
    assert(r.events() =~= seq![Event::Started { total: 0 }, Event::Completed]);
}

/// A job cancelled before its item `k` (counting from 1, `k == r.next + 1`)
/// reported the outcome of exactly the `k - 1` items before it, one `Success`
/// or `Error` each, and ends with `Cancelled`; item `k` got no progress report.
pub proof fn lemma_cancelled_job(r: BatchRunner)
    requires
        r.wf(),
        r.state == BatchState::Cancelled,
    ensures
        r.events().len() == 2 * r.next + 2,
        r.events().last() == Event::Cancelled,
        forall|j: int|
            0 <= j < r.next ==> (#[trigger] r.events()[2 * j + 2] is Success || r.events()[2 * j
                + 2] is Error),
        forall|i: int|
            0 <= i < r.events().len() && (#[trigger] r.events()[i] is Success || r.events()[i] is Error)
                ==> i % 2 == 0 && 2 <= i <= 2 * r.next,
        forall|i: int|
            0 <= i < r.events().len() ==> match #[trigger] r.events()[i] {
                Event::Progress { current, .. } => current <= r.next,
                _ => true,
            },
{
    let files = r.files();
    let outs = r.outcomes@;
    let n = r.total();
    let k = r.next as nat;
    lemma_item_events(files, outs, n, k);
    lemma_progress_numbering(r);
    let items = crate::batch::item_events(files, outs, n, k);
    let ev = r.events();
    assert forall|i: int| 1 <= i < 1 + 2 * k implies ev[i] == items[i - 1] by {}
    assert forall|j: int| 0 <= j < r.next implies (#[trigger] ev[2 * j + 2] is Success || ev[2 * j
        + 2] is Error) by {
        assert(ev[2 * j + 2] == items[2 * j + 1]);
        assert(items[2 * j + 1] == outcome_event(files[j], outs[j]));
    }
    assert forall|i: int|
        0 <= i < ev.len() && (#[trigger] ev[i] is Success || ev[i] is Error) implies i % 2 == 0
        && 2 <= i <= 2 * r.next by {
        if 1 <= i < 1 + 2 * k && (i - 1) % 2 == 0 {
            let j = (i - 1) / 2;
            assert(ev[i] == items[2 * j]);
        }
    }
}

/// Resolving the same input twice under the same settings gives the same
/// destination.
pub proof fn lemma_resolution_deterministic(
    output_dir: Seq<char>,
    first: Seq<char>,
    second: Seq<char>,
    keep_structure: bool,
    base: Option<Seq<char>>,
    ext: Seq<char>,
)
    requires
        first == second,
    ensures
        destination(output_dir, first, keep_structure, base, ext) == destination(
            output_dir,
            second,
            keep_structure,
            base,
            ext,
        ),
{
}

/// The job-wide lossless switch wins over the JPEG-only one: JPEG input is
/// recompressed losslessly, any other input is encoded at distance zero,
/// whatever the JPEG-only switch says.
pub proof fn lemma_lossless_precedence(o: EncodeOptions)
    requires
        o.lossless,
    ensures
        quality_flags(o, true) == seq!["--lossless_jpeg=1"@],
        quality_flags(o, false) == seq!["-d"@, "0"@],
{
}

/// An item whose tool exited unsuccessfully is reported as an `Error`, even when
/// the tool wrote nothing on its error output.
pub proof fn lemma_failed_exit_reported(file: Seq<char>, f: ItemFailure, tool: Tool)
    requires
        f.kind == FailureKind::Exit,
    ensures
        outcome_event(file, outcome_view(Err(f), tool)) == (Event::Error {
            file,
            error: tool.spec_name() + " failed: "@ + f.detail@,
        }),
{
}

} // verus!

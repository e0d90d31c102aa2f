//! Whole sessions: what a run of reports leads to and what it publishes,
//! and what holds of every run.

use vstd::prelude::*;
use crate::MAX_UPLOAD_SIZE;
use crate::events::UploadEventView;
use crate::ingest::{opened, ActionView, PhaseView, ReportView, SessionView};
use crate::naming::{candidate_name, effective_name, is_first_free};
use crate::registry::{directory_after, is_absolute};
use crate::routes::{Reply, ServiceError};

verus! {

/// An optional event as a sequence of at most one.
pub open spec fn listed(event: Option<UploadEventView>) -> Seq<UploadEventView> {
    match event {
        Some(e) => seq![e],
        None => Seq::empty(),
    }
}

impl SessionView {
    /// The session after `reports`, taken in order.
    pub open spec fn run(self, reports: Seq<ReportView>) -> SessionView
        decreases reports.len(),
    {
        if reports.len() == 0 {
            self
        } else {
            self.next(reports.first()).run(reports.drop_first())
        }
    }

    /// The events that the session publishes while it takes `reports`.
    pub open spec fn published(self, reports: Seq<ReportView>) -> Seq<UploadEventView>
        decreases reports.len(),
    {
        if reports.len() == 0 {
            Seq::empty()
        } else {
            listed(self.emitted(reports.first())) + self.next(reports.first()).published(
                reports.drop_first(),
            )
        }
    }
}

/// Taking `first` and then `then` is taking the two in one run.
pub proof fn lemma_run_in_parts(s: SessionView, first: Seq<ReportView>, then: Seq<ReportView>)
    ensures
        s.run(first + then) == s.run(first).run(then),
        s.published(first + then) == s.published(first) + s.run(first).published(then),
    decreases first.len(),
{
    if first.len() == 0 {
        assert(first + then =~= then);
        assert(s.published(first) + s.run(first).published(then) =~= s.published(then));
    } else {
        let all = first + then;
        assert(all.first() == first.first());
        assert(all.drop_first() =~= first.drop_first() + then);
        lemma_run_in_parts(s.next(first.first()), first.drop_first(), then);
        assert(s.published(all) =~= s.published(first) + s.run(first).published(then));
    }
}

/// A session that has its answer takes no further report: it stays as it is
/// and publishes nothing.
pub proof fn lemma_finished_is_final(s: SessionView, reports: Seq<ReportView>)
    requires
        s.phase is Finished,
    ensures
        s.run(reports) == s,
        s.published(reports) == Seq::<UploadEventView>::empty(),
    decreases reports.len(),
{
    if reports.len() > 0 {
        lemma_finished_is_final(s, reports.drop_first());
        assert(s.published(reports) =~= Seq::<UploadEventView>::empty());
    }
}

/// A body that is malformed from its start is refused and nothing else
/// happens: whatever is reported after that, no event is published, and the
/// one thing the session ever asks for is the answer that the body is
/// invalid. No file is probed, created or written.
pub proof fn lemma_malformed_body_touches_nothing(
    dir: Seq<char>,
    boundary: Seq<char>,
    rest: Seq<ReportView>,
)
    ensures
        opened(dir, boundary).failure(ReportView::Malformed) == Some(
            ServiceError::MalformedRequest,
        ),
        opened(dir, boundary).run(seq![ReportView::Malformed] + rest).pending()
            == ActionView::Respond(Reply::InvalidMultipart),
        opened(dir, boundary).published(seq![ReportView::Malformed] + rest) == Seq::<
            UploadEventView,
        >::empty(),
{
    let s = opened(dir, boundary);
    let refused = s.next(ReportView::Malformed);
    let reports = seq![ReportView::Malformed] + rest;
    assert(reports.first() == ReportView::Malformed);
    assert(reports.drop_first() =~= rest);
    lemma_finished_is_final(refused, rest);
    assert(s.published(reports) =~= Seq::<UploadEventView>::empty());
}

/// The directory that an action is about, if it is about one.
pub open spec fn action_dir(action: ActionView) -> Option<Seq<char>> {
    match action {
        ActionView::Probe(path) => Some(path.dir),
        ActionView::Create(path) => Some(path.dir),
        _ => None,
    }
}

/// A session keeps the directory and the boundary it was opened with, and
/// every file it asks for lies in that directory.
pub proof fn lemma_session_keeps_directory(s: SessionView, reports: Seq<ReportView>)
    ensures
        s.run(reports).dir == s.dir,
        s.run(reports).boundary == s.boundary,
        action_dir(s.run(reports).pending()) matches Some(dir) ==> dir == s.dir,
    decreases reports.len(),
{
    if reports.len() > 0 {
        lemma_session_keeps_directory(s.next(reports.first()), reports.drop_first());
    }
}

/// A change of the destination directory reaches the sessions opened after
/// it and no other: a session opened on the directory `current` stays with
/// it through all its reports, whatever the registry becomes meanwhile, and
/// a session opened after the change works in the directory that the
/// registry then holds.
pub proof fn lemma_directory_change_spares_open_sessions(
    current: Seq<char>,
    requested: Option<Seq<char>>,
    created: bool,
    boundary: Seq<char>,
    reports: Seq<ReportView>,
)
    ensures
        opened(current, boundary).run(reports).dir == current,
        action_dir(opened(current, boundary).run(reports).pending()) matches Some(dir) ==> dir
            == current,
        opened(directory_after(current, requested, created), boundary).run(reports).dir
            == directory_after(current, requested, created),
        requested matches Some(wanted) ==> (created && is_absolute(wanted) ==> opened(
            directory_after(current, requested, created),
            boundary,
        ).run(reports).dir == wanted),
{
    lemma_session_keeps_directory(opened(current, boundary), reports);
    lemma_session_keeps_directory(
        opened(directory_after(current, requested, created), boundary),
        reports,
    );
}

/// The bytes of `chunks`, added up.
pub open spec fn total(chunks: Seq<u64>) -> nat
    decreases chunks.len(),
{
    if chunks.len() == 0 {
        0
    } else {
        chunks.first() as nat + total(chunks.drop_first())
    }
}

/// The reports of `count` probes that each found the path taken.
pub open spec fn taken_probes(count: nat) -> Seq<ReportView> {
    Seq::new(count, |i: int| ReportView::Probed { exists: true })
}

/// The reports of chunks of the lengths `chunks`, each written without
/// error.
pub open spec fn written_chunks(chunks: Seq<u64>) -> Seq<ReportView>
    decreases chunks.len(),
{
    if chunks.len() == 0 {
        Seq::empty()
    } else {
        seq![ReportView::Chunk { len: chunks.first() }, ReportView::Written { ok: true }]
            + written_chunks(chunks.drop_first())
    }
}

/// The progress events for `chunks`, written behind `written` bytes: each
/// carries the number of bytes in the file after its chunk.
pub open spec fn progress_events(name: Seq<char>, written: nat, chunks: Seq<u64>) -> Seq<
    UploadEventView,
>
    decreases chunks.len(),
{
    if chunks.len() == 0 {
        Seq::empty()
    } else {
        seq![
            UploadEventView::Progress {
                file_name: name,
                bytes_written: (written + chunks.first()) as u64,
            },
        ] + progress_events(name, (written + chunks.first()) as nat, chunks.drop_first())
    }
}

/// The reports of a field that is stored without error: the field with the
/// file name `requested`, `taken` candidates found taken and the next one
/// free, the file created, the chunks written, the field's end.
pub open spec fn stored_file_reports(requested: Seq<char>, taken: nat, chunks: Seq<u64>) -> Seq<
    ReportView,
> {
    seq![ReportView::Field { file_name: Some(requested) }] + taken_probes(taken) + seq![
        ReportView::Probed { exists: false },
        ReportView::Created { ok: true },
    ] + written_chunks(chunks) + seq![ReportView::EndOfField]
}

/// The events of a stored file: one start, a progress report for each
/// chunk, one end.
pub open spec fn stored_file_events(name: Seq<char>, chunks: Seq<u64>) -> Seq<UploadEventView> {
    seq![UploadEventView::Started { file_name: name }] + progress_events(name, 0, chunks) + seq![
        UploadEventView::Done { file_name: name },
    ]
}

/// Probes that find their path taken move the session along the
/// candidates and publish nothing.
proof fn lemma_taken_probes(s: SessionView, name: Seq<char>, index: u64, count: nat)
    requires
        s.phase == (PhaseView::Probing { name, index }),
        index + count <= u64::MAX,
    ensures
        s.run(taken_probes(count)) == s.at(
            PhaseView::Probing { name, index: (index + count) as u64 },
        ),
        s.published(taken_probes(count)) == Seq::<UploadEventView>::empty(),
    decreases count,
{
    let probes = taken_probes(count);
    if count > 0 {
        let after = s.next(probes.first());
        assert(probes.drop_first() =~= taken_probes((count - 1) as nat));
        lemma_taken_probes(after, name, (index + 1) as u64, (count - 1) as nat);
        assert(s.published(probes) =~= Seq::<UploadEventView>::empty());
    }
}

/// Chunks that fit below the limit are all written, and each is reported
/// with the size that the file has reached.
proof fn lemma_written_chunks(s: SessionView, name: Seq<char>, written: u64, chunks: Seq<u64>)
    requires
        s.phase == (PhaseView::Receiving { name, written }),
        written + total(chunks) <= MAX_UPLOAD_SIZE,
    ensures
        s.run(written_chunks(chunks)) == s.at(
            PhaseView::Receiving { name, written: (written + total(chunks)) as u64 },
        ),
        s.published(written_chunks(chunks)) == progress_events(name, written as nat, chunks),
    decreases chunks.len(),
{
    let reports = written_chunks(chunks);
    if chunks.len() > 0 {
        let size = (written + chunks.first()) as u64;
        let pair = seq![
            ReportView::Chunk { len: chunks.first() },
            ReportView::Written { ok: true },
        ];
        let rest = written_chunks(chunks.drop_first());
        let writing = s.next(pair[0]);
        let received = writing.next(pair[1]);
        assert(pair.drop_first().drop_first() =~= Seq::<ReportView>::empty());
        assert(s.run(pair) == received) by {
            assert(pair.drop_first().first() == pair[1]);
            reveal_with_fuel(SessionView::run, 3);
        }
        assert(s.published(pair) =~= seq![
            UploadEventView::Progress { file_name: name, bytes_written: size },
        ]) by {
            assert(pair.drop_first().first() == pair[1]);
            reveal_with_fuel(SessionView::published, 3);
        }
        lemma_run_in_parts(s, pair, rest);
        lemma_written_chunks(received, name, size, chunks.drop_first());
    }
}

/// Every file that is stored without error is announced by exactly one
/// start, one progress report for each of its chunks, and one end, in that
/// order and under the name it was sent with; after it the session is
/// between fields again. Files up to the limit, the limit included, are
/// stored.
pub proof fn lemma_stored_file_is_announced(
    s: SessionView,
    requested: Seq<char>,
    taken: nat,
    chunks: Seq<u64>,
)
    requires
        s.phase is AwaitingField,
        taken <= u64::MAX,
        total(chunks) <= MAX_UPLOAD_SIZE,
    ensures
        s.run(stored_file_reports(requested, taken, chunks)) == s,
        s.published(stored_file_reports(requested, taken, chunks)) == stored_file_events(
            effective_name(requested),
            chunks,
        ),
{
    let name = effective_name(requested);
    let field = seq![ReportView::Field { file_name: Some(requested) }];
    let probes = taken_probes(taken);
    let found = seq![ReportView::Probed { exists: false }, ReportView::Created { ok: true }];
    let body = written_chunks(chunks);
    let end = seq![ReportView::EndOfField];

    let probing = s.at(PhaseView::Probing { name, index: 0 });
    assert(s.run(field) == probing && s.published(field) =~= Seq::<UploadEventView>::empty()) by {
        assert(field.drop_first() =~= Seq::<ReportView>::empty());
        reveal_with_fuel(SessionView::run, 2);
        reveal_with_fuel(SessionView::published, 2);
    }
    lemma_taken_probes(probing, name, 0, taken);
    let at_free = s.at(PhaseView::Probing { name, index: taken as u64 });
    let receiving = s.at(PhaseView::Receiving { name, written: 0 });
    assert(at_free.run(found) == receiving && at_free.published(found) =~= seq![
        UploadEventView::Started { file_name: name },
    ]) by {
        assert(found.drop_first().first() == found[1]);
        assert(found.drop_first().drop_first() =~= Seq::<ReportView>::empty());
        reveal_with_fuel(SessionView::run, 3);
        reveal_with_fuel(SessionView::published, 3);
    }
    lemma_written_chunks(receiving, name, 0, chunks);
    let received = s.at(PhaseView::Receiving { name, written: total(chunks) as u64 });
    assert(received.run(end) == s && received.published(end) =~= seq![
        UploadEventView::Done { file_name: name },
    ]) by {
        assert(end.drop_first() =~= Seq::<ReportView>::empty());
        reveal_with_fuel(SessionView::run, 2);
        reveal_with_fuel(SessionView::published, 2);
    }
    lemma_run_in_parts(s, field, probes);
    lemma_run_in_parts(s, field + probes, found);
    lemma_run_in_parts(s, field + probes + found, body);
    lemma_run_in_parts(s, field + probes + found + body, end);
    assert(s.published(stored_file_reports(requested, taken, chunks)) =~= stored_file_events(
        name,
        chunks,
    ));
}

/// Chunks that add up to more than the limit end the request: the chunk
/// that crosses the limit is refused, and nothing reported after it counts.
proof fn lemma_chunks_past_limit(
    s: SessionView,
    name: Seq<char>,
    written: u64,
    chunks: Seq<u64>,
    rest: Seq<ReportView>,
)
    requires
        s.phase == (PhaseView::Receiving { name, written }),
        written <= MAX_UPLOAD_SIZE,
        written + total(chunks) > MAX_UPLOAD_SIZE,
    ensures
        s.run(written_chunks(chunks) + rest).phase == (PhaseView::Finished {
            reply: Reply::FileTooLarge,
        }),
    decreases chunks.len(),
{
    let pair = seq![ReportView::Chunk { len: chunks.first() }, ReportView::Written { ok: true }];
    let later = written_chunks(chunks.drop_first()) + rest;
    assert(written_chunks(chunks) + rest =~= pair + later);
    assert(pair.drop_first().first() == pair[1]);
    assert(pair.drop_first().drop_first() =~= Seq::<ReportView>::empty());
    lemma_run_in_parts(s, pair, later);
    reveal_with_fuel(SessionView::run, 3);
    if written + chunks.first() > MAX_UPLOAD_SIZE {
        lemma_finished_is_final(s.run(pair), later);
    } else {
        lemma_chunks_past_limit(
            s.run(pair),
            name,
            (written + chunks.first()) as u64,
            chunks.drop_first(),
            rest,
        );
    }
}

/// A file of more bytes than the limit, be it one byte more, ends the whole
/// request: once its chunks are reported the session's one answer is that
/// the file is too large, whatever is reported after them.
pub proof fn lemma_oversized_file_ends_request(
    s: SessionView,
    requested: Seq<char>,
    taken: nat,
    chunks: Seq<u64>,
    rest: Seq<ReportView>,
)
    requires
        s.phase is AwaitingField,
        taken <= u64::MAX,
        total(chunks) > MAX_UPLOAD_SIZE,
    ensures
        s.run(
            seq![ReportView::Field { file_name: Some(requested) }] + taken_probes(taken) + seq![
                ReportView::Probed { exists: false },
                ReportView::Created { ok: true },
            ] + written_chunks(chunks) + rest,
        ).pending() == ActionView::Respond(Reply::FileTooLarge),
{
    let name = effective_name(requested);
    let field = seq![ReportView::Field { file_name: Some(requested) }];
    let probes = taken_probes(taken);
    let found = seq![ReportView::Probed { exists: false }, ReportView::Created { ok: true }];
    let body = written_chunks(chunks) + rest;

    let probing = s.at(PhaseView::Probing { name, index: 0 });
    assert(s.run(field) == probing) by {
        assert(field.drop_first() =~= Seq::<ReportView>::empty());
        reveal_with_fuel(SessionView::run, 2);
    }
    lemma_taken_probes(probing, name, 0, taken);
    let at_free = s.at(PhaseView::Probing { name, index: taken as u64 });
    let receiving = s.at(PhaseView::Receiving { name, written: 0 });
    assert(at_free.run(found) == receiving) by {
        assert(found.drop_first().first() == found[1]);
        assert(found.drop_first().drop_first() =~= Seq::<ReportView>::empty());
        reveal_with_fuel(SessionView::run, 3);
    }
    lemma_chunks_past_limit(receiving, name, 0, chunks, rest);
    lemma_run_in_parts(s, field, probes);
    lemma_run_in_parts(s, field + probes, found);
    lemma_run_in_parts(s, field + probes + found, body);
    assert(field + probes + found + written_chunks(chunks) + rest =~= field + probes + found
        + body);
}

/// The byte counts of the progress reports of one file never go down, and
/// none is below the size that the file had before them.
pub proof fn lemma_progress_never_goes_down(name: Seq<char>, written: nat, chunks: Seq<u64>)
    requires
        written + total(chunks) <= u64::MAX,
    ensures
        progress_events(name, written, chunks).len() == chunks.len(),
        forall|i: int|
            0 <= i < chunks.len() ==> ((#[trigger] progress_events(name, written, chunks)[i])
                matches UploadEventView::Progress { file_name, bytes_written } && file_name == name
                && written <= bytes_written <= written + total(chunks)),
        forall|i: int, j: int|
            0 <= i <= j < chunks.len() ==> progress_events(
                name,
                written,
                chunks,
            )[i].bytes_written().unwrap() <= progress_events(
                name,
                written,
                chunks,
            )[j].bytes_written().unwrap(),
    decreases chunks.len(),
{
    if chunks.len() > 0 {
        let size = (written + chunks.first()) as nat;
        let later = progress_events(name, size, chunks.drop_first());
        lemma_progress_never_goes_down(name, size, chunks.drop_first());
        let all = progress_events(name, written, chunks);
        assert forall|i: int| 0 < i < chunks.len() implies all[i] == later[i - 1] by {}
    }
}

/// What an observer makes of the events so far: no file is being
/// announced, or the file `name` is, with `bytes` bytes reported.
pub enum Watch {
    Idle,
    Open { name: Seq<char>, bytes: u64 },
}

/// What the observer makes of the next event, or `None` where the event is
/// out of order: a start may come at any time; a progress report and an end
/// must be for the file being announced, and a byte count must not go down.
pub open spec fn watch(seen: Watch, event: UploadEventView) -> Option<Watch> {
    match event {
        UploadEventView::Started { file_name } => Some(Watch::Open { name: file_name, bytes: 0 }),
        UploadEventView::Progress { file_name, bytes_written } => match seen {
            Watch::Open { name, bytes } if name == file_name && bytes <= bytes_written => Some(
                Watch::Open { name, bytes: bytes_written },
            ),
            _ => None,
        },
        UploadEventView::Done { file_name } => match seen {
            Watch::Open { name, bytes } if name == file_name => Some(Watch::Idle),
            _ => None,
        },
    }
}

/// Whether the events of `log` are in order for an observer who has seen
/// `seen`.
pub open spec fn in_order_from(seen: Watch, log: Seq<UploadEventView>) -> bool
    decreases log.len(),
{
    log.len() == 0 || match watch(seen, log.first()) {
        Some(then) => in_order_from(then, log.drop_first()),
        None => false,
    }
}

/// Whether the events of `log` are in order: each file is announced as a
/// start, then progress reports with byte counts that do not go down, then
/// at most one end, and nothing is reported of a file that was not started.
pub open spec fn in_order(log: Seq<UploadEventView>) -> bool {
    in_order_from(Watch::Idle, log)
}

/// Whether the observer's knowledge fits the session's phase: while a file
/// is created, received or written, it is the file being announced, and
/// no more bytes were reported than the session counts.
pub open spec fn fits(phase: PhaseView, seen: Watch) -> bool {
    match phase {
        PhaseView::Creating { name, index } => seen == (Watch::Open { name, bytes: 0 }),
        PhaseView::Receiving { name, written } => seen matches Watch::Open { name: open, bytes }
            && open == name && bytes <= written,
        PhaseView::Writing { name, written } => seen matches Watch::Open { name: open, bytes }
            && open == name && bytes <= written,
        _ => true,
    }
}

/// From a phase that the observer's knowledge fits, whatever is reported,
/// the events come in order.
proof fn lemma_in_order_from(s: SessionView, seen: Watch, reports: Seq<ReportView>)
    requires
        fits(s.phase, seen),
    ensures
        in_order_from(seen, s.published(reports)),
    decreases reports.len(),
{
    if reports.len() > 0 {
        let after = s.next(reports.first());
        let later = after.published(reports.drop_first());
        match s.emitted(reports.first()) {
            Some(event) => {
                let then = watch(seen, event).unwrap();
                lemma_in_order_from(after, then, reports.drop_first());
                let log = s.published(reports);
                assert(log.first() == event);
                assert(log.drop_first() =~= later);
            },
            None => {
                lemma_in_order_from(after, seen, reports.drop_first());
                assert(s.published(reports) =~= later);
            },
        }
    }
}

/// Whatever a request's body turns out to be and however its files fare,
/// the events that its session publishes are in order.
pub proof fn lemma_events_come_in_order(
    dir: Seq<char>,
    boundary: Seq<char>,
    reports: Seq<ReportView>,
)
    ensures
        in_order(opened(dir, boundary).published(reports)),
{
    lemma_in_order_from(opened(dir, boundary), Watch::Idle, reports);
}

/// Probing finds the first free candidate. Where all candidates below the
/// one being probed are taken and the probe is answered truthfully, either
/// that candidate is taken too and the next one is probed, still with all
/// candidates below it taken, or it is the first free one and the file is
/// created under it, in the session's directory.
pub proof fn lemma_probing_finds_first_free(
    s: SessionView,
    name: Seq<char>,
    index: u64,
    taken: Set<Seq<char>>,
)
    requires
        s.phase == (PhaseView::Probing { name, index }),
        forall|j: nat| j < index ==> taken.contains(#[trigger] candidate_name(name, j)),
    ensures
        ({
            let exists = taken.contains(candidate_name(name, index as nat));
            let after = s.next(ReportView::Probed { exists });
            &&& !exists ==> is_first_free(name, taken, index as nat) && after.pending()
                == ActionView::Create(s.place(name, index))
            &&& exists && index < u64::MAX ==> after.phase == (PhaseView::Probing {
                name,
                index: (index + 1) as u64,
            }) && forall|j: nat|
                j < index + 1 ==> taken.contains(#[trigger] candidate_name(name, j))
        }),
{
}

/// The answers that a directory holding the files `directory` gives to the
/// probes for the candidates of `name` from the first up to candidate
/// `last`.
pub open spec fn truthful_probes(name: Seq<char>, directory: Set<Seq<char>>, last: nat) -> Seq<
    ReportView,
> {
    Seq::new(
        last + 1,
        |j: int| ReportView::Probed { exists: directory.contains(candidate_name(name, j as nat)) },
    )
}

/// Whatever the name and whatever the directory holds, a file is created
/// under the first candidate that is free: when the probes of a field are
/// answered as the directory stands, the session goes through the
/// candidates in order, starting with the name itself, and asks for the
/// file to be created at the first one that the directory does not hold, in
/// the session's directory. That candidate does not exist at that moment,
/// and the file's start is the one event published on the way.
pub proof fn lemma_file_is_created_under_first_free_name(
    s: SessionView,
    requested: Seq<char>,
    directory: Set<Seq<char>>,
    index: nat,
)
    requires
        s.phase is AwaitingField,
        index <= u64::MAX,
        is_first_free(effective_name(requested), directory, index),
    ensures
        ({
            let name = effective_name(requested);
            let reports = seq![ReportView::Field { file_name: Some(requested) }] + truthful_probes(
                name,
                directory,
                index,
            );
            &&& s.run(reports).pending() == ActionView::Create(s.place(name, index as u64))
            &&& s.place(name, index as u64).file_name == candidate_name(name, index)
            &&& !directory.contains(s.place(name, index as u64).file_name)
            &&& s.published(reports) == seq![UploadEventView::Started { file_name: name }]
        }),
{
    let name = effective_name(requested);
    let field = seq![ReportView::Field { file_name: Some(requested) }];
    let probes = taken_probes(index);
    let free = seq![ReportView::Probed { exists: false }];
    assert(truthful_probes(name, directory, index) =~= probes + free);

    let probing = s.at(PhaseView::Probing { name, index: 0 });
    assert(s.run(field) == probing && s.published(field) =~= Seq::<UploadEventView>::empty()) by {
        assert(field.drop_first() =~= Seq::<ReportView>::empty());
        reveal_with_fuel(SessionView::run, 2);
        reveal_with_fuel(SessionView::published, 2);
    }
    lemma_taken_probes(probing, name, 0, index);
    let at_free = s.at(PhaseView::Probing { name, index: index as u64 });
    assert(at_free.run(free) == s.at(PhaseView::Creating { name, index: index as u64 })
        && at_free.published(free) =~= seq![UploadEventView::Started { file_name: name }]) by {
        assert(free.drop_first() =~= Seq::<ReportView>::empty());
        reveal_with_fuel(SessionView::run, 2);
        reveal_with_fuel(SessionView::published, 2);
    }
    lemma_run_in_parts(s, field, probes);
    lemma_run_in_parts(s, field + probes, free);
    assert(field + truthful_probes(name, directory, index) =~= field + probes + free);
    assert(s.published(field + probes + free) =~= seq![
        UploadEventView::Started { file_name: name },
    ]);
}

impl SessionView {
    /// No file of the session holds more bytes than the limit, written or
    /// about to be written.
    pub open spec fn within_limit(self) -> bool {
        match self.phase {
            PhaseView::Receiving { name, written } => written <= MAX_UPLOAD_SIZE,
            PhaseView::Writing { name, written } => written <= MAX_UPLOAD_SIZE,
            _ => true,
        }
    }
}

/// No file grows past the limit: a session that is within the limit stays
/// so whatever is reported, and no progress report that it publishes
/// carries a byte count above the limit.
pub proof fn lemma_files_stay_within_limit(s: SessionView, reports: Seq<ReportView>)
    requires
        s.within_limit(),
    ensures
        s.run(reports).within_limit(),
        forall|i: int|
            0 <= i < s.published(reports).len() ==> (#[trigger] s.published(
                reports,
            )[i].bytes_written() matches Some(bytes) ==> bytes <= MAX_UPLOAD_SIZE),
    decreases reports.len(),
{
    if reports.len() > 0 {
        let after = s.next(reports.first());
        lemma_files_stay_within_limit(after, reports.drop_first());
        let now = listed(s.emitted(reports.first()));
        let later = after.published(reports.drop_first());
        assert forall|i: int| 0 <= i < s.published(reports).len() implies (
        #[trigger] s.published(reports)[i].bytes_written() matches Some(bytes) ==> bytes
            <= MAX_UPLOAD_SIZE) by {
            if i >= now.len() {
                assert(s.published(reports)[i] == later[i - now.len()]);
            }
        }
    }
}

} // verus!

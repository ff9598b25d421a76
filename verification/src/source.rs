//! The data-source state machine.
//!
//! A source owns one backing payload (a file inside a private temporary
//! directory) and the ordered list of content-type labels it offers. It
//! answers server-initiated transfer requests, tracks single-shot and
//! cancellation, and hands out its cleanup plan exactly once when it is done.
//!
//! The byte copy itself and the file removals are performed by the embedding
//! program; the machine decides, on plain values, whether a request is
//! answered, with which payload, and when the process is finished.

use vstd::prelude::*;

verus! {

/// The phases of a source's life.
///
/// `Idle`: created, collecting offered labels, not yet attached to a device.
/// `Active`: attached; transfer requests are accepted (any number may be in
/// flight at once). `Done` and `Cancelled` are terminal and are never left.
#[derive(Clone, Copy, Debug, PartialEq, Eq, Structural)]
pub enum SourcePhase {
    Idle,
    Active,
    Done,
    Cancelled,
}

/// Where the backing payload lives: one file inside one private directory.
pub struct BackingPath {
    pub dir: String,
    pub file: String,
}

/// One best-effort removal the embedding program must perform, in the order
/// handed out: the backing file strictly before its directory.
pub enum CleanupStep {
    RemoveFile(String),
    RemoveDir(String),
}

/// The mathematical state of a source.
pub struct SourceModel {
    pub backing_dir: Seq<char>,
    pub backing_file: Seq<char>,
    pub offered: Seq<Seq<char>>,
    pub paste_once: bool,
    pub phase: SourcePhase,
    pub serving: nat,
    pub cleaned: bool,
}

/// The engine's loop stops as soon as this holds; it holds exactly in the
/// two terminal phases and, once true, never reverts.
pub open spec fn should_quit_model(m: SourceModel) -> bool {
    m.phase is Done || m.phase is Cancelled
}

/// A transfer request for `label` is answered only while the source is
/// attached and the label is among the offered ones; a label never offered
/// is ignored rather than an error.
pub open spec fn accepts_model(m: SourceModel, label: Seq<char>) -> bool {
    m.phase is Active && m.offered.contains(label)
}

/// What an answered request streams: always the one backing payload,
/// whichever offered label was asked for.
pub open spec fn transfer_payload_model(m: SourceModel, label: Seq<char>) -> Option<
    (Seq<char>, Seq<char>),
> {
    if accepts_model(m, label) {
        Some((m.backing_dir, m.backing_file))
    } else {
        None
    }
}

/// Registering one more offered label while still idle.
pub open spec fn offer_model(m: SourceModel, label: Seq<char>) -> SourceModel {
    SourceModel { offered: m.offered.push(label), ..m }
}

/// Attaching the source to the seats' devices: offers freeze, requests open.
pub open spec fn attach_model(m: SourceModel) -> SourceModel {
    SourceModel { phase: SourcePhase::Active, ..m }
}

/// One accepted request starts streaming.
pub open spec fn serve_model(m: SourceModel) -> SourceModel {
    SourceModel { serving: m.serving + 1, ..m }
}

/// One in-flight transfer ends. A failed copy is local: it changes nothing
/// but the in-flight count. The first successful transfer of a single-shot
/// source finishes the source; a terminal phase is never left.
pub open spec fn complete_model(m: SourceModel, success: bool) -> SourceModel {
    SourceModel {
        serving: if m.serving > 0 {
            (m.serving - 1) as nat
        } else {
            0
        },
        phase: if success && m.paste_once && m.phase is Active {
            SourcePhase::Done
        } else {
            m.phase
        },
        ..m
    }
}

/// The compositor reports that another client took the selection. From any
/// non-terminal phase this cancels the source at once; in-flight transfers
/// may still finish, but no new request is accepted.
pub open spec fn cancel_model(m: SourceModel) -> SourceModel {
    SourceModel {
        phase: if should_quit_model(m) {
            m.phase
        } else {
            SourcePhase::Cancelled
        },
        ..m
    }
}

/// The cleanup plan may still be handed out.
pub open spec fn cleanup_available(m: SourceModel) -> bool {
    should_quit_model(m) && !m.cleaned
}

/// The state after the cleanup plan was handed out.
pub open spec fn cleaned_model(m: SourceModel) -> SourceModel {
    SourceModel { cleaned: true, ..m }
}

/// The full path of the backing file inside its directory.
pub open spec fn joined_path(dir: Seq<char>, file: Seq<char>) -> Seq<char> {
    dir + "/"@ + file
}

/// The data source, as the embedding program holds it.
pub struct DataSource {
    backing: BackingPath,
    offered_types: Vec<String>,
    paste_once: bool,
    phase: SourcePhase,
    serving: usize,
    cleaned: bool,
}

impl View for DataSource {
    type V = SourceModel;

    closed spec fn view(&self) -> SourceModel {
        SourceModel {
            backing_dir: self.backing.dir@,
            backing_file: self.backing.file@,
            offered: self.offered_types.deep_view(),
            paste_once: self.paste_once,
            phase: self.phase,
            serving: self.serving as nat,
            cleaned: self.cleaned,
        }
    }
}

impl DataSource {
    /// A fresh source over its backing payload: idle, offering nothing yet,
    /// nothing in flight, not yet cleaned up.
    pub fn new(backing: BackingPath, paste_once: bool) -> (s: DataSource)
        ensures
            s@ == (SourceModel {
                backing_dir: backing.dir@,
                backing_file: backing.file@,
                offered: Seq::<Seq<char>>::empty(),
                paste_once: paste_once,
                phase: SourcePhase::Idle,
                serving: 0,
                cleaned: false,
            }),
    {
        let s = DataSource {
            backing,
            offered_types: Vec::new(),
            paste_once,
            phase: SourcePhase::Idle,
            serving: 0,
            cleaned: false,
        };
        proof {
            assert(s.offered_types.deep_view() =~= Seq::<Seq<char>>::empty());
        }
        s
    }

    /// Register one more offered content-type label. Order is significant:
    /// the richest text label is offered first, and requesters may pick the
    /// first mutually acceptable one. Only an idle source takes offers; the
    /// list never changes once the source serves requests.
    pub fn offer(&mut self, label: String)
        requires
            old(self)@.phase is Idle,
        ensures
            final(self)@ == offer_model(old(self)@, label@),
    {
        let ghost pre = self.offered_types.deep_view();
        let ghost l = label@;
        self.offered_types.push(label);
        proof {
            assert(self.offered_types.deep_view() =~= pre.push(l));
        }
    }

    /// Attach the source as the seats' selection: the offer list freezes and
    /// transfer requests are accepted from now on.
    pub fn attach(&mut self)
        requires
            old(self)@.phase is Idle,
        ensures
            final(self)@ == attach_model(old(self)@),
    {
        self.phase = SourcePhase::Active;
    }

    /// Answer a transfer request for `label`.
    ///
    /// If the source accepts it, the backing payload to stream comes back
    /// and one more transfer is in flight; which payload comes back does not
    /// depend on the label. Otherwise the request is ignored and nothing
    /// changes.
    pub fn begin_transfer(&mut self, label: &String) -> (task: Option<BackingPath>)
        requires
            old(self)@.serving < usize::MAX,
        ensures
            accepts_model(old(self)@, label@) ==> {
                &&& task matches Some(p) && p.dir@ == old(self)@.backing_dir
                    && p.file@ == old(self)@.backing_file
                &&& final(self)@ == serve_model(old(self)@)
            },
            !accepts_model(old(self)@, label@) ==> task is None && final(self)@ == old(self)@,
            (match task {
                Some(p) => Some((p.dir@, p.file@)),
                None => None,
            }) == transfer_payload_model(old(self)@, label@),
    {
        if !matches!(self.phase, SourcePhase::Active) {
            proof {
                assert(!accepts_model(self@, label@));
            }
            return None;
        }
        let mut found = false;
        let mut i: usize = 0;
        while i < self.offered_types.len()
            invariant
                i <= self.offered_types.len(),
                found == exists|j: int|
                    0 <= j < i && self.offered_types.deep_view()[j] == label@,
            decreases self.offered_types.len() - i,
        {
            if *label == self.offered_types[i] {
                found = true;
                proof {
                    assert(self.offered_types.deep_view()[i as int] == label@);
                }
            }
            i += 1;
        }
        if !found {
            proof {
                assert(!self@.offered.contains(label@));
            }
            return None;
        }
        proof {
            assert(self@.offered.contains(label@));
        }
        self.serving += 1;
        Some(BackingPath { dir: self.backing.dir.clone(), file: self.backing.file.clone() })
    }

    /// One in-flight transfer finished, successfully or not.
    pub fn complete_transfer(&mut self, success: bool)
        requires
            old(self)@.serving > 0,
        ensures
            final(self)@ == complete_model(old(self)@, success),
    {
        self.serving -= 1;
        if success && self.paste_once && matches!(self.phase, SourcePhase::Active) {
            self.phase = SourcePhase::Done;
        }
    }

    /// The selection was taken by another client: cancel the source. From a
    /// terminal phase this changes nothing.
    pub fn cancel(&mut self)
        ensures
            final(self)@ == cancel_model(old(self)@),
    {
        match self.phase {
            SourcePhase::Done => {}
            SourcePhase::Cancelled => {}
            _ => {
                self.phase = SourcePhase::Cancelled;
            }
        }
    }

    /// Whether the engine is finished with this source.
    pub fn should_quit(&self) -> (r: bool)
        ensures
            r == should_quit_model(self@),
    {
        matches!(self.phase, SourcePhase::Done | SourcePhase::Cancelled)
    }

    /// Whether the source was cancelled rather than finished.
    pub fn cancelled(&self) -> (r: bool)
        ensures
            r == (self@.phase is Cancelled),
    {
        matches!(self.phase, SourcePhase::Cancelled)
    }

    /// How many transfers are in flight.
    pub fn serving(&self) -> (r: usize)
        ensures
            r == self@.serving,
    {
        self.serving
    }

    /// Hand out the cleanup plan: remove the backing file, then its
    /// directory, in that order. A finished source hands the plan out
    /// exactly once; every later call returns nothing, so the removals are
    /// never attempted twice.
    pub fn take_cleanup(&mut self) -> (plan: Option<Vec<CleanupStep>>)
        requires
            should_quit_model(old(self)@),
        ensures
            cleanup_available(old(self)@) ==> {
                &&& plan matches Some(steps)
                &&& steps@.len() == 2
                &&& steps@[0] matches CleanupStep::RemoveFile(p)
                    && p@ == joined_path(old(self)@.backing_dir, old(self)@.backing_file)
                &&& steps@[1] matches CleanupStep::RemoveDir(d) && d@ == old(self)@.backing_dir
                &&& final(self)@ == cleaned_model(old(self)@)
            },
            !cleanup_available(old(self)@) ==> plan is None && final(self)@ == old(self)@,
    {
        if self.cleaned {
            return None;
        }
        self.cleaned = true;
        let mut file_path = self.backing.dir.clone();
        file_path.append("/");
        file_path.append(self.backing.file.as_str());
        let mut steps: Vec<CleanupStep> = Vec::new();
        steps.push(CleanupStep::RemoveFile(file_path));
        steps.push(CleanupStep::RemoveDir(self.backing.dir.clone()));
        Some(steps)
    }
}

/// Once the engine is finished, it stays finished: no transition revives a
/// terminal source.
pub proof fn lemma_should_quit_monotonic(m: SourceModel, success: bool)
    ensures
        should_quit_model(m) ==> should_quit_model(serve_model(m)),
        should_quit_model(m) ==> should_quit_model(complete_model(m, success)),
        should_quit_model(m) ==> should_quit_model(cancel_model(m)),
        should_quit_model(m) ==> should_quit_model(cleaned_model(m)),
{
}

/// The terminal phases are never left and never exchanged for one another.
pub proof fn lemma_terminal_phase_stable(m: SourceModel, success: bool)
    requires
        should_quit_model(m),
    ensures
        complete_model(m, success).phase == m.phase,
        cancel_model(m).phase == m.phase,
        serve_model(m).phase == m.phase,
        cleaned_model(m).phase == m.phase,
{
}

/// The offered labels never change once the source serves requests: no
/// transition past `offer` touches the list.
pub proof fn lemma_offers_frozen(m: SourceModel, success: bool)
    ensures
        attach_model(m).offered == m.offered,
        serve_model(m).offered == m.offered,
        complete_model(m, success).offered == m.offered,
        cancel_model(m).offered == m.offered,
        cleaned_model(m).offered == m.offered,
{
}

/// Label independence: any two offered labels are answered with the same
/// payload; the label gates whether a request is answered, never what is
/// sent.
pub proof fn lemma_label_independence(m: SourceModel, label_a: Seq<char>, label_b: Seq<char>)
    requires
        accepts_model(m, label_a),
        accepts_model(m, label_b),
    ensures
        transfer_payload_model(m, label_a) == transfer_payload_model(m, label_b),
{
}

/// Single-shot behaviour: once an attached single-shot source completes its
/// first successful transfer, the engine is told to quit and no further
/// request is answered, whatever label it names.
pub proof fn lemma_paste_once_single_shot(m: SourceModel, first: Seq<char>, next: Seq<char>)
    requires
        m.paste_once,
        accepts_model(m, first),
    ensures
        should_quit_model(complete_model(serve_model(m), true)),
        !accepts_model(complete_model(serve_model(m), true), next),
{
}

/// Cleanup runs exactly once: after the plan was handed out, it is not
/// available again, whatever happens to the source afterwards.
pub proof fn lemma_cleanup_runs_once(m: SourceModel, success: bool)
    ensures
        !cleanup_available(cleaned_model(m)),
        cleaned_model(m).cleaned,
        complete_model(cleaned_model(m), success).cleaned,
        cancel_model(cleaned_model(m)).cleaned,
{
}

} // verus!

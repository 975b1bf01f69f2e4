use vstd::prelude::*;
use crate::model::InvoiceData;
use crate::latex::{BuildError, PdfFile};

verus! {

/// How far the built document lags behind the data.
#[derive(Debug, Clone, Copy, PartialEq, Eq, Structural)]
pub enum BuildStatus {
    /// no document reflects the current snapshot
    Stale,
    /// a document of the current snapshot exists and was not exported yet
    Previewed,
    /// the document of the current snapshot was copied to its destination
    Exported,
}

/// How many background builds may run at once, and how long to wait between
/// two dispatches.
#[derive(Debug, Clone, Copy, PartialEq, Eq, Structural)]
pub struct ThrottlePolicy {
    pub max_in_flight: u64,
    pub cooldown_ms: u64,
}

/// A document together with the snapshot it was built from.
#[derive(Debug, Clone)]
pub struct BuiltArtifact {
    pub pdf: PdfFile,
    pub snapshot_id: u64,
}

/// A build to run in the background, for the snapshot that was current when
/// it was dispatched.
#[derive(Debug, Clone, Copy, PartialEq, Eq, Structural)]
pub struct BuildOrder {
    pub snapshot_id: u64,
}

/// What the caller is to do after an event: start a background build, show
/// a document, both or neither.
#[derive(Debug, Clone)]
pub struct Effects {
    pub dispatch: Option<BuildOrder>,
    pub show: Option<String>,
}

/// What a request for the current document needs first.
#[derive(Debug, Clone)]
pub enum Demand {
    /// no document reflects the snapshot: build it now, then install it
    Build(BuildOrder),
    /// the document at this path is current
    Ready(String),
}

/// The coordinator as a mathematical value.
pub struct CoordinatorView {
    pub snapshot: InvoiceData,
    pub snapshot_id: nat,
    pub status: BuildStatus,
    pub artifact: Option<ArtifactView>,
    pub in_flight: nat,
    pub last_dispatch: Option<nat>,
    pub pending: bool,
    pub preview_active: bool,
    pub max_in_flight: nat,
    pub cooldown: nat,
}

/// An installed document: its path and the snapshot it was built from.
pub struct ArtifactView {
    pub path: Seq<char>,
    pub snapshot_id: nat,
}

/// Effects as mathematical values: the snapshot a build is dispatched for,
/// and the path of a document to show.
pub struct EffectsView {
    pub dispatch: Option<nat>,
    pub show: Option<Seq<char>>,
}

pub enum DemandView {
    Build(nat),
    Ready(Seq<char>),
}

impl View for Effects {
    type V = EffectsView;

    open spec fn view(&self) -> EffectsView {
        EffectsView {
            dispatch: match self.dispatch {
                Some(o) => Some(o.snapshot_id as nat),
                None => None,
            },
            show: match self.show {
                Some(p) => Some(p@),
                None => None,
            },
        }
    }
}

impl View for Demand {
    type V = DemandView;

    open spec fn view(&self) -> DemandView {
        match self {
            Demand::Build(o) => DemandView::Build(o.snapshot_id as nat),
            Demand::Ready(p) => DemandView::Ready(p@),
        }
    }
}

pub open spec fn no_effects() -> EffectsView {
    EffectsView { dispatch: None, show: None }
}

impl CoordinatorView {
    /// The invariant: the policy allows one build at least, no more builds run
    /// than it allows, and a status other than stale comes with a document of
    /// the current snapshot.
    pub open spec fn wf(self) -> bool {
        &&& self.max_in_flight >= 1
        &&& self.in_flight <= self.max_in_flight
        &&& self.status != BuildStatus::Stale ==> (self.artifact is Some && self.artifact->0.snapshot_id
            == self.snapshot_id)
    }

    /// The cooldown has passed since the last dispatch, if there was one.
    pub open spec fn cooldown_over(self, now: nat) -> bool {
        match self.last_dispatch {
            None => true,
            Some(t) => now - t >= self.cooldown,
        }
    }

    pub open spec fn may_dispatch(self, now: nat) -> bool {
        self.in_flight < self.max_in_flight && self.cooldown_over(now)
    }

    /// One attempt to dispatch a build: it runs if the throttle allows it,
    /// else the rebuild is left pending.
    pub open spec fn attempt(self, now: nat) -> (CoordinatorView, Option<nat>) {
        if self.may_dispatch(now) {
            (
                CoordinatorView {
                    in_flight: self.in_flight + 1,
                    last_dispatch: Some(now),
                    pending: false,
                    ..self
                },
                Some(self.snapshot_id),
            )
        } else {
            (CoordinatorView { pending: true, ..self }, None)
        }
    }

    /// The dispatch decision. Nothing happens for invalid data or a hidden
    /// preview. A stale snapshot gets a build if the throttle allows it,
    /// otherwise the installed document is shown; a pending rebuild is then
    /// tried once more.
    pub open spec fn evaluate(self, now: nat) -> (CoordinatorView, EffectsView) {
        if !(self.snapshot.form_valid() && self.preview_active) {
            (self, no_effects())
        } else {
            let first = if self.status == BuildStatus::Stale {
                self.attempt(now)
            } else {
                (self, None)
            };
            let show = if self.status == BuildStatus::Stale {
                None
            } else {
                match self.artifact {
                    Some(a) => Some(a.path),
                    None => None,
                }
            };
            let second = if first.0.pending {
                first.0.attempt(now)
            } else {
                (first.0, None)
            };
            let dispatch = if first.1 is Some {
                first.1
            } else {
                second.1
            };
            (second.0, EffectsView { dispatch, show })
        }
    }

    /// A new snapshot replaces the current one and makes every document stale.
    pub open spec fn changed(self, snapshot: InvoiceData) -> CoordinatorView {
        CoordinatorView {
            snapshot,
            snapshot_id: self.snapshot_id + 1,
            status: BuildStatus::Stale,
            ..self
        }
    }

    /// A finished background build: it no longer runs, and its document is
    /// installed only if it was built from the current snapshot.
    pub open spec fn completed(self, built: Option<Seq<char>>, built_from: nat, now: nat) -> (
        CoordinatorView,
        EffectsView,
    ) {
        let done = CoordinatorView { in_flight: (self.in_flight - 1) as nat, ..self };
        match built {
            Some(path) => if built_from == self.snapshot_id {
                let after = done.evaluate_installed(path, built_from, now);
                after
            } else {
                done.evaluate(now)
            },
            None => done.evaluate(now),
        }
    }

    pub open spec fn evaluate_installed(self, path: Seq<char>, built_from: nat, now: nat) -> (
        CoordinatorView,
        EffectsView,
    ) {
        let r = self.installed(path, built_from).evaluate(now);
        (r.0, EffectsView { show: Some(path), ..r.1 })
    }

    /// A document installed if it reflects the current snapshot.
    pub open spec fn installed(self, path: Seq<char>, built_from: nat) -> CoordinatorView {
        if built_from == self.snapshot_id {
            CoordinatorView {
                artifact: Some(ArtifactView { path, snapshot_id: built_from }),
                status: BuildStatus::Previewed,
                ..self
            }
        } else {
            self
        }
    }

    /// The current document was copied out; a stale one never is.
    pub open spec fn exported(self) -> CoordinatorView {
        if self.status != BuildStatus::Stale {
            CoordinatorView { status: BuildStatus::Exported, ..self }
        } else {
            self
        }
    }

    /// What a request for the current document needs.
    pub open spec fn demand(self) -> DemandView {
        if self.status == BuildStatus::Stale || self.artifact is None {
            DemandView::Build(self.snapshot_id)
        } else {
            DemandView::Ready(self.artifact->0.path)
        }
    }
}

/// Decides when documents are built and which built documents are kept. It
/// runs on one thread; builds run elsewhere and report back through
/// `on_build_completed`.
pub struct BuildCoordinator {
    snapshot: InvoiceData,
    snapshot_id: u64,
    status: BuildStatus,
    artifact: Option<BuiltArtifact>,
    in_flight: u64,
    last_dispatch_ms: Option<u64>,
    pending: bool,
    preview_active: bool,
    policy: ThrottlePolicy,
}

impl View for BuildCoordinator {
    type V = CoordinatorView;

    closed spec fn view(&self) -> CoordinatorView {
        CoordinatorView {
            snapshot: self.snapshot,
            snapshot_id: self.snapshot_id as nat,
            status: self.status,
            artifact: match self.artifact {
                Some(a) => Some(ArtifactView { path: a.pdf.path@, snapshot_id: a.snapshot_id as nat }),
                None => None,
            },
            in_flight: self.in_flight as nat,
            last_dispatch: match self.last_dispatch_ms {
                Some(t) => Some(t as nat),
                None => None,
            },
            pending: self.pending,
            preview_active: self.preview_active,
            max_in_flight: self.policy.max_in_flight as nat,
            cooldown: self.policy.cooldown_ms as nat,
        }
    }
}

impl BuildCoordinator {
    /// A coordinator for a first snapshot, with nothing built yet and the
    /// preview shown.
    pub fn new(snapshot: InvoiceData, policy: ThrottlePolicy) -> (r: BuildCoordinator)
        requires
            policy.max_in_flight >= 1,
        ensures
            r@.wf(),
            r@ == (CoordinatorView {
                snapshot,
                snapshot_id: 0,
                status: BuildStatus::Stale,
                artifact: None,
                in_flight: 0,
                last_dispatch: None,
                pending: false,
                preview_active: true,
                max_in_flight: policy.max_in_flight as nat,
                cooldown: policy.cooldown_ms as nat,
            }),
    {
        BuildCoordinator {
            snapshot,
            snapshot_id: 0,
            status: BuildStatus::Stale,
            artifact: None,
            in_flight: 0,
            last_dispatch_ms: None,
            pending: false,
            preview_active: true,
            policy,
        }
    }

    fn attempt(&mut self, now: u64) -> (r: Option<BuildOrder>)
        requires
            old(self)@.wf(),
        ensures
            final(self)@.wf(),
            (final(self)@, match r {
                Some(o) => Some(o.snapshot_id as nat),
                None => None,
            }) == old(self)@.attempt(now as nat),
    {
        let over = match self.last_dispatch_ms {
            None => true,
            Some(t) => now >= t && now - t >= self.policy.cooldown_ms,
        };
        if self.in_flight < self.policy.max_in_flight && over {
            self.in_flight = self.in_flight + 1;
            self.last_dispatch_ms = Some(now);
            self.pending = false;
            Some(BuildOrder { snapshot_id: self.snapshot_id })
        } else {
            self.pending = true;
            None
        }
    }

    /// Decides whether to dispatch a build or show the installed document;
    /// `now` is a monotonic clock in milliseconds.
    pub fn evaluate_dispatch(&mut self, now: u64) -> (r: Effects)
        requires
            old(self)@.wf(),
        ensures
            final(self)@.wf(),
            (final(self)@, r@) == old(self)@.evaluate(now as nat),
    {
        if !(self.snapshot.is_form_valid() && self.preview_active) {
            return Effects { dispatch: None, show: None };
        }
        let mut dispatch: Option<BuildOrder> = None;
        let mut show: Option<String> = None;
        match self.status {
            BuildStatus::Stale => {
                dispatch = self.attempt(now);
            },
            _ => {
                show = match &self.artifact {
                    Some(a) => Some(a.pdf.path.clone()),
                    None => None,
                };
            },
        }
        if self.pending {
            let again = self.attempt(now);
            if dispatch.is_none() {
                dispatch = again;
            }
        }
        Effects { dispatch, show }
    }

    /// Takes the snapshot of an edit: every document becomes stale, then the
    /// dispatch decision is made.
    pub fn on_snapshot_changed(&mut self, snapshot: InvoiceData, now: u64) -> (r: Effects)
        requires
            old(self)@.wf(),
            old(self)@.snapshot_id < u64::MAX,
        ensures
            final(self)@.wf(),
            (final(self)@, r@) == old(self)@.changed(snapshot).evaluate(now as nat),
    {
        self.snapshot = snapshot;
        self.snapshot_id = self.snapshot_id + 1;
        self.status = BuildStatus::Stale;
        self.evaluate_dispatch(now)
    }

    /// Shows or hides the preview, then makes the dispatch decision.
    pub fn set_preview_active(&mut self, active: bool, now: u64) -> (r: Effects)
        requires
            old(self)@.wf(),
        ensures
            final(self)@.wf(),
            (final(self)@, r@) == (CoordinatorView { preview_active: active, ..old(self)@ }).evaluate(
                now as nat,
            ),
    {
        self.preview_active = active;
        self.evaluate_dispatch(now)
    }

    /// Takes the result of a background build dispatched for snapshot
    /// `built_from`. A document of an older snapshot is dropped; a failure
    /// leaves the installed document as it was.
    pub fn on_build_completed(
        &mut self,
        result: Result<PdfFile, BuildError>,
        built_from: u64,
        now: u64,
    ) -> (r: Effects)
        requires
            old(self)@.wf(),
            old(self)@.in_flight > 0,
        ensures
            final(self)@.wf(),
            (final(self)@, r@) == old(self)@.completed(
                match result {
                    Ok(pdf) => Some(pdf.path@),
                    Err(_) => None,
                },
                built_from as nat,
                now as nat,
            ),
    {
        self.in_flight = self.in_flight - 1;
        match result {
            Ok(pdf) => {
                if built_from == self.snapshot_id {
                    let path = pdf.path.clone();
                    self.artifact = Some(BuiltArtifact { pdf, snapshot_id: built_from });
                    self.status = BuildStatus::Previewed;
                    let e = self.evaluate_dispatch(now);
                    Effects { dispatch: e.dispatch, show: Some(path) }
                } else {
                    self.evaluate_dispatch(now)
                }
            },
            Err(_) => self.evaluate_dispatch(now),
        }
    }

    /// What a preview request needs: a build now if the snapshot is stale,
    /// else the current document.
    pub fn request_preview(&self) -> (r: Demand)
        requires
            self@.wf(),
        ensures
            r@ == self@.demand(),
    {
        self.demand()
    }

    /// What an export request needs before the copy: a build now if the
    /// snapshot is stale, else the current document.
    pub fn request_export(&self) -> (r: Demand)
        requires
            self@.wf(),
        ensures
            r@ == self@.demand(),
    {
        self.demand()
    }

    fn demand(&self) -> (r: Demand)
        ensures
            r@ == self@.demand(),
    {
        match (&self.status, &self.artifact) {
            (BuildStatus::Stale, _) => Demand::Build(BuildOrder { snapshot_id: self.snapshot_id }),
            (_, None) => Demand::Build(BuildOrder { snapshot_id: self.snapshot_id }),
            (_, Some(a)) => Demand::Ready(a.pdf.path.clone()),
        }
    }

    /// Installs the document of a build made on request. It is kept only if
    /// it was built from the current snapshot.
    pub fn install(&mut self, pdf: PdfFile, built_from: u64) -> (r: bool)
        requires
            old(self)@.wf(),
        ensures
            final(self)@.wf(),
            r == (built_from == old(self)@.snapshot_id),
            final(self)@ == old(self)@.installed(pdf.path@, built_from as nat),
    {
        if built_from == self.snapshot_id {
            self.artifact = Some(BuiltArtifact { pdf, snapshot_id: built_from });
            self.status = BuildStatus::Previewed;
            true
        } else {
            false
        }
    }

    /// Records that the current document was copied to its destination.
    pub fn mark_exported(&mut self)
        requires
            old(self)@.wf(),
        ensures
            final(self)@.wf(),
            final(self)@ == old(self)@.exported(),
    {
        if self.status != BuildStatus::Stale {
            self.status = BuildStatus::Exported;
        }
    }

    pub fn status(&self) -> (r: BuildStatus)
        ensures
            r == self@.status,
    {
        self.status
    }

    pub fn snapshot(&self) -> (r: &InvoiceData)
        ensures
            *r == self@.snapshot,
    {
        &self.snapshot
    }

    pub fn snapshot_id(&self) -> (r: u64)
        ensures
            r == self@.snapshot_id,
    {
        self.snapshot_id
    }

    pub fn in_flight(&self) -> (r: u64)
        ensures
            r == self@.in_flight,
    {
        self.in_flight
    }

    pub fn pending(&self) -> (r: bool)
        ensures
            r == self@.pending,
    {
        self.pending
    }

    /// The path of the installed document, if any.
    pub fn artifact_path(&self) -> (r: Option<String>)
        ensures
            r matches Some(p) ==> (self@.artifact matches Some(a) && p@ == a.path),
            r is None <==> self@.artifact is None,
    {
        match &self.artifact {
            Some(a) => Some(a.pdf.path.clone()),
            None => None,
        }
    }
}

/// A background build that finishes after a newer edit is dropped: the
/// document it made is not installed and the status stays stale.
pub proof fn lemma_stale_result_discarded(
    s: CoordinatorView,
    t1: nat,
    next: InvoiceData,
    t2: nat,
    path: Seq<char>,
    t3: nat,
)
    requires
        s.wf(),
        s.evaluate(t1).1.dispatch is Some,
    ensures
        ({
            let (a, e) = s.evaluate(t1);
            let b = a.changed(next).evaluate(t2).0;
            let c = b.completed(Some(path), e.dispatch->0, t3).0;
            &&& b.in_flight > 0
            &&& c.status == BuildStatus::Stale
            &&& c.artifact == b.artifact
        }),
{
}

/// With one build allowed at a time and a cooldown of 100 ms, two
/// evaluations less than 100 ms apart start one build at most, and no more
/// than one build runs. Where the first started a build for a stale
/// snapshot, the second leaves the rebuild pending.
pub proof fn lemma_throttle_single_flight(s: CoordinatorView, t1: nat, t2: nat)
    requires
        s.wf(),
        s.max_in_flight == 1,
        s.cooldown == 100,
        t1 <= t2 < t1 + 100,
    ensures
        ({
            let (a, e1) = s.evaluate(t1);
            let (b, e2) = a.evaluate(t2);
            &&& !(e1.dispatch is Some && e2.dispatch is Some)
            &&& b.in_flight <= 1
            &&& (e1.dispatch is Some && s.status == BuildStatus::Stale) ==> b.pending
        }),
{
}

/// Two exports in a row with no edit between them build at most once, and
/// only if the snapshot was stale; the second copies the document that the
/// first one copied, and the status ends exported.
pub proof fn lemma_export_twice(s: CoordinatorView, built: Seq<char>)
    requires
        s.wf(),
    ensures
        ({
            let first = s.demand();
            let s1 = match first {
                DemandView::Build(id) => s.installed(built, id),
                DemandView::Ready(_) => s,
            };
            let s2 = s1.exported();
            let second = s2.demand();
            &&& (first is Build <==> s.status == BuildStatus::Stale)
            &&& second is Ready
            &&& (first matches DemandView::Ready(p) ==> second == DemandView::Ready(p))
            &&& (first is Build ==> second == DemandView::Ready(built))
            &&& s2.exported().status == BuildStatus::Exported
        }),
{
}

/// A document is handed out only if it was built from the current snapshot.
pub proof fn lemma_ready_is_current(s: CoordinatorView)
    requires
        s.wf(),
    ensures
        s.demand() matches DemandView::Ready(p) ==> (s.artifact matches Some(a) && a.path == p
            && a.snapshot_id == s.snapshot_id),
{
}

} // verus!

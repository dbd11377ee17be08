//! Reconciliation engine for a zonefile resource.
//!
//! One reconciliation pass walks the zonefile's zone references in order;
//! for each it fetches the referenced zone, stamps the back-reference label
//! if needed, and — when the zone is ready (fqdn, hash and serial all
//! present) — renders its zonefile text. After the walk the accumulated
//! renderings are published wholesale as the artifact document and as the
//! status maps, keyed by origin, and the pass schedules its next run. Any
//! API failure aborts the whole pass and schedules a retry.
//!
//! The engine itself performs no I/O: it is a step machine that hands the
//! surrounding runtime one [`ApiRequest`] at a time and advances on the
//! reported outcome.

use vstd::prelude::*;

use crate::domain::DomainName;
use crate::linker::backref_value;
use crate::linker::backref_value_spec;
use crate::linker::link_needed;
use crate::linker::link_write_needed;
use crate::linker::opt_string_view;
use crate::render::Record;
use crate::render::build_zonefile;
use crate::render::render_spec;
use crate::ERROR_REQUEUE_SECONDS;
use crate::RECONCILE_REQUEUE_SECONDS;

verus! {

/// A reference from a zonefile to a zone, by name and optionally namespace;
/// an absent namespace means the zonefile's own.
pub struct ZoneRef {
    pub name: String,
    pub namespace: Option<String>,
}

/// The zonefile being reconciled: its identity, its ordered zone references
/// and the optional name override for the published artifact.
pub struct ZoneFileState {
    pub name: String,
    pub namespace: String,
    pub zone_refs: Vec<ZoneRef>,
    pub config_map_name: Option<String>,
}

/// What the engine reads of a fetched zone: the three optional readiness
/// fields, the ordered record list, and the current back-reference label
/// value, if any.
pub struct ZoneState {
    pub fqdn: Option<DomainName>,
    pub entries: Vec<Record>,
    pub hash: Option<String>,
    pub serial: Option<u32>,
    pub backref_label: Option<String>,
}

/// A successfully rendered zone: its origin, the serial and hash reported by
/// the zone, and the rendered zonefile text.
pub struct RenderedZone {
    pub origin: String,
    pub serial: u32,
    pub hash: String,
    pub contents: String,
}

/// Ghost image of a rendered zone.
pub ghost struct RenderedView {
    pub origin: Seq<char>,
    pub serial: u32,
    pub hash: Seq<char>,
    pub contents: Seq<char>,
}

impl View for RenderedZone {
    type V = RenderedView;

    open spec fn view(&self) -> RenderedView {
        RenderedView {
            origin: self.origin@,
            serial: self.serial,
            hash: self.hash@,
            contents: self.contents@,
        }
    }
}

/// A zone is ready to render exactly when fqdn, hash and serial are all
/// present.
pub open spec fn zone_ready(z: ZoneState) -> bool {
    z.fqdn is Some && z.hash is Some && z.serial is Some
}

/// What a ready zone renders to; an unready zone renders to nothing.
pub open spec fn serialize_zone_spec(z: ZoneState) -> Option<RenderedView> {
    if zone_ready(z) {
        Some(
            RenderedView {
                origin: z.fqdn->0@,
                serial: z.serial->0,
                hash: z.hash->0@,
                contents: render_spec(z.fqdn->0@, z.entries@),
            },
        )
    } else {
        None
    }
}

/// The renderings one pass accumulates over a sequence of fetched zones, in
/// order: ready zones contribute their rendering, unready zones contribute
/// nothing.
pub open spec fn rendered_of(zs: Seq<ZoneState>) -> Seq<RenderedView>
    decreases zs.len(),
{
    if zs.len() == 0 {
        Seq::empty()
    } else {
        rendered_of(zs.drop_last()) + match serialize_zone_spec(zs.last()) {
            Some(rv) => seq![rv],
            None => Seq::empty(),
        }
    }
}

/// The artifact document published by a pass: origin-keyed rendered text,
/// a later rendering silently overwriting an earlier one of the same origin.
pub open spec fn artifact_map(rs: Seq<RenderedView>) -> Map<Seq<char>, Seq<char>>
    decreases rs.len(),
{
    if rs.len() == 0 {
        Map::empty()
    } else {
        artifact_map(rs.drop_last()).insert(rs.last().origin, rs.last().contents)
    }
}

/// The status hash map published by a pass: origin-keyed zone hashes.
pub open spec fn hash_map_of(rs: Seq<RenderedView>) -> Map<Seq<char>, Seq<char>>
    decreases rs.len(),
{
    if rs.len() == 0 {
        Map::empty()
    } else {
        hash_map_of(rs.drop_last()).insert(rs.last().origin, rs.last().hash)
    }
}

/// The status serial map published by a pass: origin-keyed zone serials.
pub open spec fn serial_map_of(rs: Seq<RenderedView>) -> Map<Seq<char>, u32>
    decreases rs.len(),
{
    if rs.len() == 0 {
        Map::empty()
    } else {
        serial_map_of(rs.drop_last()).insert(rs.last().origin, rs.last().serial)
    }
}

/// Renders a zone if it is ready: returns the rendering exactly when fqdn,
/// hash and serial are all present, and nothing — never an error — when one
/// is missing.
pub fn serialize_zone(z: &ZoneState) -> (r: Option<RenderedZone>)
    ensures
        r is Some <==> zone_ready(*z),
        r is Some ==> r->0@ == serialize_zone_spec(*z)->0,
{
    let fqdn = match &z.fqdn {
        Some(fqdn) => fqdn,
        None => {
            return None;
        },
    };
    let hash = match &z.hash {
        Some(hash) => hash,
        None => {
            return None;
        },
    };
    let serial = match &z.serial {
        Some(serial) => *serial,
        None => {
            return None;
        },
    };
    let contents = build_zonefile(fqdn, z.entries.as_slice());
    Some(
        RenderedZone {
            origin: fqdn.as_str().to_owned(),
            serial,
            hash: hash.clone(),
            contents,
        },
    )
}

/// Law: an unready zone is skipped, not failed. A zone missing fqdn, hash or
/// serial contributes nothing to the pass: the renderings over a walk that
/// ends with it are exactly the renderings without it.
pub proof fn lemma_unready_zone_skipped(zs: Seq<ZoneState>, z: ZoneState)
    requires
        !zone_ready(z),
    ensures
        rendered_of(zs.push(z)) == rendered_of(zs),
{
    assert(zs.push(z).drop_last() =~= zs);
    assert(zs.push(z).last() == z);
    assert(rendered_of(zs.push(z)) =~= rendered_of(zs));
}

/// Every rendering of a pass comes from a ready zone of that pass, with that
/// origin.
pub proof fn lemma_rendered_origins(zs: Seq<ZoneState>, o: Seq<char>)
    requires
        forall|i: int|
            0 <= i < zs.len() ==> !(zone_ready(#[trigger] zs[i]) && zs[i].fqdn->0@ == o),
    ensures
        forall|j: int| 0 <= j < rendered_of(zs).len() ==> (#[trigger] rendered_of(zs)[j]).origin
            != o,
    decreases zs.len(),
{
    if zs.len() > 0 {
        let pre = zs.drop_last();
        assert(forall|i: int| 0 <= i < pre.len() ==> pre[i] == zs[i]);
        lemma_rendered_origins(pre, o);
        assert(zs[zs.len() - 1] == zs.last());
        assert forall|j: int| 0 <= j < rendered_of(zs).len() implies (#[trigger] rendered_of(
            zs,
        )[j]).origin != o by {
            if j < rendered_of(pre).len() {
                assert(rendered_of(zs)[j] == rendered_of(pre)[j]);
            } else {
                assert(serialize_zone_spec(zs.last()) is Some);
                assert(rendered_of(zs)[j] == serialize_zone_spec(zs.last())->0);
            }
        }
    }
}

/// No rendering with a given origin means no published entry under that
/// origin, in the artifact and in both status maps.
pub proof fn lemma_origin_absent_from_maps(rs: Seq<RenderedView>, o: Seq<char>)
    requires
        forall|j: int| 0 <= j < rs.len() ==> (#[trigger] rs[j]).origin != o,
    ensures
        !artifact_map(rs).contains_key(o),
        !hash_map_of(rs).contains_key(o),
        !serial_map_of(rs).contains_key(o),
    decreases rs.len(),
{
    if rs.len() > 0 {
        assert(forall|j: int| 0 <= j < rs.drop_last().len() ==> rs.drop_last()[j] == rs[j]);
        lemma_origin_absent_from_maps(rs.drop_last(), o);
    }
}

/// Law: origins key the published maps, and of several renderings sharing an
/// origin — two references resolving to zones with the same origin — the
/// latest in pass order silently overwrites the earlier ones.
pub proof fn lemma_later_rendering_wins(rs: Seq<RenderedView>, j: int)
    requires
        0 <= j < rs.len(),
        forall|k: int| j < k < rs.len() ==> (#[trigger] rs[k]).origin != rs[j].origin,
    ensures
        artifact_map(rs).contains_key(rs[j].origin),
        artifact_map(rs)[rs[j].origin] == rs[j].contents,
        hash_map_of(rs).contains_key(rs[j].origin),
        hash_map_of(rs)[rs[j].origin] == rs[j].hash,
        serial_map_of(rs).contains_key(rs[j].origin),
        serial_map_of(rs)[rs[j].origin] == rs[j].serial,
    decreases rs.len(),
{
    if j < rs.len() - 1 {
        let pre = rs.drop_last();
        assert(forall|k: int| 0 <= k < pre.len() ==> pre[k] == rs[k]);
        lemma_later_rendering_wins(pre, j);
        assert(rs[rs.len() - 1] == rs.last());
        assert(rs.last().origin != rs[j].origin);
    }
}

/// Where a pass stands: walking the references (fetching a zone, or waiting
/// for a back-reference write on the zone just fetched), publishing the
/// artifact and then the status, finished, or aborted by an API error.
#[derive(Clone, Copy, PartialEq, Eq, Structural, Debug)]
pub enum Phase {
    Fetching,
    Linking,
    PublishingArtifact,
    PublishingStatus,
    Done,
    Failed,
}

/// The API call the runtime must perform next on the engine's behalf.
#[derive(Debug)]
pub enum ApiRequest {
    /// Fetch the named zone in the given namespace.
    FetchZone { namespace: String, name: String },
    /// Merge-patch the zone's back-reference label to the given value.
    WriteBackref { namespace: String, zone_name: String, label_value: String },
    /// Server-side apply of the artifact document: origin-keyed rendered
    /// text, replacing the previous contents wholesale.
    PublishArtifact { namespace: String, name: String, data: Vec<(String, String)> },
    /// Merge-patch of the zonefile status: origin-keyed hashes and serials,
    /// replacing the previous maps wholesale.
    PublishStatus {
        namespace: String,
        name: String,
        hashes: Vec<(String, String)>,
        serials: Vec<(String, u32)>,
    },
    /// The pass is over; run the next one after this many seconds.
    Requeue { seconds: u64 },
}

/// The namespace a zone reference resolves to: its own if given, else the
/// zonefile's.
pub open spec fn resolved_namespace_spec(r: ZoneRef, zf: ZoneFileState) -> Seq<char> {
    match r.namespace {
        Some(ns) => ns@,
        None => zf.namespace@,
    }
}

/// The name of the published artifact: the configured override, or the
/// zonefile's own name.
pub open spec fn artifact_name_spec(zf: ZoneFileState) -> Seq<char> {
    match zf.config_map_name {
        Some(n) => n@,
        None => zf.name@,
    }
}

/// The views of a vector of renderings.
pub open spec fn rendered_views(rs: Seq<RenderedZone>) -> Seq<RenderedView> {
    rs.map_values(|r: RenderedZone| r@)
}

/// The published artifact data mirrors the renderings pairwise: one
/// (origin, contents) entry per rendering, in order.
pub open spec fn artifact_pairs_ok(data: Seq<(String, String)>, rs: Seq<RenderedView>) -> bool {
    &&& data.len() == rs.len()
    &&& forall|i: int|
        0 <= i < rs.len() ==> (#[trigger] data[i]).0@ == rs[i].origin && data[i].1@
            == rs[i].contents
}

/// The published status maps mirror the renderings pairwise: one
/// (origin, hash) and one (origin, serial) entry per rendering, in order.
pub open spec fn status_pairs_ok(
    hashes: Seq<(String, String)>,
    serials: Seq<(String, u32)>,
    rs: Seq<RenderedView>,
) -> bool {
    &&& hashes.len() == rs.len()
    &&& serials.len() == rs.len()
    &&& forall|i: int|
        0 <= i < rs.len() ==> (#[trigger] hashes[i]).0@ == rs[i].origin && hashes[i].1@
            == rs[i].hash
    &&& forall|i: int|
        0 <= i < rs.len() ==> (#[trigger] serials[i]).0@ == rs[i].origin && serials[i].1
            == rs[i].serial
}

/// One reconciliation pass over a zonefile, as a step machine. The runtime
/// asks for the next API request, performs it, and reports the outcome; the
/// ghost history records the zones fetched and processed so far, and the
/// accumulated renderings always mirror it.
pub struct Reconciler {
    pub zonefile: ZoneFileState,
    pub next_ref: usize,
    pub pending: Option<ZoneState>,
    pub rendered: Vec<RenderedZone>,
    pub phase: Phase,
    pub history: Ghost<Seq<ZoneState>>,
}

/// The engine processed `zone` (stamping already settled): it joins the
/// history, its rendering — if it is ready — joins the accumulated
/// renderings, and the pass moves to the next reference or, after the last,
/// to publishing.
pub open spec fn processed_zone(pre: Reconciler, post: Reconciler, zone: ZoneState) -> bool {
    &&& post.zonefile == pre.zonefile
    &&& post.history@ == pre.history@.push(zone)
    &&& post.next_ref == pre.next_ref + 1
    &&& post.pending is None
    &&& (!zone_ready(zone) ==> post.rendered@ == pre.rendered@)
    &&& post.phase == (if pre.next_ref + 1 < pre.zonefile.zone_refs@.len() {
        Phase::Fetching
    } else {
        Phase::PublishingArtifact
    })
}

fn resolved_namespace(r: &ZoneRef, zf: &ZoneFileState) -> (ns: String)
    ensures
        ns@ == resolved_namespace_spec(*r, *zf),
{
    match &r.namespace {
        Some(ns) => ns.clone(),
        None => zf.namespace.clone(),
    }
}

fn artifact_name(zf: &ZoneFileState) -> (r: String)
    ensures
        r@ == artifact_name_spec(*zf),
{
    match &zf.config_map_name {
        Some(n) => n.clone(),
        None => zf.name.clone(),
    }
}

impl Reconciler {
    /// The engine's invariant: the position is within the reference list and
    /// consistent with the phase, and the accumulated renderings are exactly
    /// the renderings of the zones processed so far.
    pub open spec fn wf(&self) -> bool {
        &&& self.next_ref <= self.zonefile.zone_refs@.len()
        &&& (self.phase is Fetching ==> self.next_ref < self.zonefile.zone_refs@.len()
            && self.pending is None)
        &&& (self.phase is Linking ==> self.pending is Some && self.next_ref
            < self.zonefile.zone_refs@.len())
        &&& ((self.phase is PublishingArtifact || self.phase is PublishingStatus
            || self.phase is Done) ==> self.next_ref == self.zonefile.zone_refs@.len()
            && self.pending is None)
        &&& (self.phase is Failed ==> self.pending is None)
        &&& rendered_views(self.rendered@) == rendered_of(self.history@)
    }

    /// Starts a pass: nothing fetched, nothing rendered, positioned at the
    /// first zone reference — or, with no references at all, straight at
    /// publishing (an empty artifact and empty status maps).
    pub fn new(zonefile: ZoneFileState) -> (r: Reconciler)
        ensures
            r.wf(),
            r.zonefile == zonefile,
            r.history@ == Seq::<ZoneState>::empty(),
            r.rendered@.len() == 0,
            r.next_ref == 0,
            r.phase == (if zonefile.zone_refs@.len() == 0 {
                Phase::PublishingArtifact
            } else {
                Phase::Fetching
            }),
    {
        let phase = if zonefile.zone_refs.len() == 0 {
            Phase::PublishingArtifact
        } else {
            Phase::Fetching
        };
        let r = Reconciler {
            zonefile,
            next_ref: 0,
            pending: None,
            rendered: Vec::new(),
            phase,
            history: Ghost(Seq::empty()),
        };
        proof {
            assert(rendered_views(r.rendered@) =~= rendered_of(r.history@));
        }
        r
    }

    /// The API request the runtime must perform next, given where the pass
    /// stands: fetch the current zone, stamp the one just fetched, publish
    /// the artifact, publish the status, or requeue — after the configured
    /// period on success, after the retry delay on failure.
    pub fn current_action(&self) -> (r: ApiRequest)
        requires
            self.wf(),
        ensures
            self.phase is Fetching ==> (r matches ApiRequest::FetchZone { namespace, name }
                && namespace@ == resolved_namespace_spec(
                self.zonefile.zone_refs@[self.next_ref as int],
                self.zonefile,
            ) && name@ == self.zonefile.zone_refs@[self.next_ref as int].name@),
            self.phase is Linking ==> (r matches ApiRequest::WriteBackref {
                namespace,
                zone_name,
                label_value,
            } && namespace@ == resolved_namespace_spec(
                self.zonefile.zone_refs@[self.next_ref as int],
                self.zonefile,
            ) && zone_name@ == self.zonefile.zone_refs@[self.next_ref as int].name@
                && label_value@ == backref_value_spec(
                self.zonefile.name@,
                self.zonefile.namespace@,
            )),
            self.phase is PublishingArtifact ==> (r matches ApiRequest::PublishArtifact {
                namespace,
                name,
                data,
            } && namespace@ == self.zonefile.namespace@ && name@ == artifact_name_spec(
                self.zonefile,
            ) && artifact_pairs_ok(data@, rendered_of(self.history@))),
            self.phase is PublishingStatus ==> (r matches ApiRequest::PublishStatus {
                namespace,
                name,
                hashes,
                serials,
            } && namespace@ == self.zonefile.namespace@ && name@ == self.zonefile.name@
                && status_pairs_ok(hashes@, serials@, rendered_of(self.history@))),
            self.phase is Done ==> r == (ApiRequest::Requeue {
                seconds: RECONCILE_REQUEUE_SECONDS,
            }),
            self.phase is Failed ==> r == (ApiRequest::Requeue { seconds: ERROR_REQUEUE_SECONDS }),
    {
        match self.phase {
            Phase::Fetching => {
                let zone_ref = &self.zonefile.zone_refs[self.next_ref];
                ApiRequest::FetchZone {
                    namespace: resolved_namespace(zone_ref, &self.zonefile),
                    name: zone_ref.name.clone(),
                }
            },
            Phase::Linking => {
                let zone_ref = &self.zonefile.zone_refs[self.next_ref];
                ApiRequest::WriteBackref {
                    namespace: resolved_namespace(zone_ref, &self.zonefile),
                    zone_name: zone_ref.name.clone(),
                    label_value: backref_value(
                        self.zonefile.name.as_str(),
                        self.zonefile.namespace.as_str(),
                    ),
                }
            },
            Phase::PublishingArtifact => {
                let mut data: Vec<(String, String)> = Vec::new();
                let n = self.rendered.len();
                let mut i: usize = 0;
                while i < n
                    invariant
                        0 <= i <= n,
                        n == self.rendered@.len(),
                        data@.len() == i,
                        forall|k: int|
                            0 <= k < i ==> (#[trigger] data@[k]).0@ == self.rendered@[k]@.origin
                                && data@[k].1@ == self.rendered@[k]@.contents,
                    decreases n - i,
                {
                    let rz = &self.rendered[i];
                    data.push((rz.origin.clone(), rz.contents.clone()));
                    i = i + 1;
                }
                proof {
                    assert(rendered_views(self.rendered@).len() == self.rendered@.len());
                    assert(forall|k: int|
                        0 <= k < self.rendered@.len() ==> rendered_views(self.rendered@)[k]
                            == (#[trigger] self.rendered@[k])@);
                    assert(artifact_pairs_ok(data@, rendered_of(self.history@)));
                }
                ApiRequest::PublishArtifact {
                    namespace: self.zonefile.namespace.clone(),
                    name: artifact_name(&self.zonefile),
                    data,
                }
            },
            Phase::PublishingStatus => {
                let mut hashes: Vec<(String, String)> = Vec::new();
                let mut serials: Vec<(String, u32)> = Vec::new();
                let n = self.rendered.len();
                let mut i: usize = 0;
                while i < n
                    invariant
                        0 <= i <= n,
                        n == self.rendered@.len(),
                        hashes@.len() == i,
                        serials@.len() == i,
                        forall|k: int|
                            0 <= k < i ==> (#[trigger] hashes@[k]).0@ == self.rendered@[k]@.origin
                                && hashes@[k].1@ == self.rendered@[k]@.hash,
                        forall|k: int|
                            0 <= k < i ==> (#[trigger] serials@[k]).0@ == self.rendered@[k]@.origin
                                && serials@[k].1 == self.rendered@[k]@.serial,
                    decreases n - i,
                {
                    let rz = &self.rendered[i];
                    hashes.push((rz.origin.clone(), rz.hash.clone()));
                    serials.push((rz.origin.clone(), rz.serial));
                    i = i + 1;
                }
                proof {
                    assert(rendered_views(self.rendered@).len() == self.rendered@.len());
                    assert(forall|k: int|
                        0 <= k < self.rendered@.len() ==> rendered_views(self.rendered@)[k]
                            == (#[trigger] self.rendered@[k])@);
                    assert(status_pairs_ok(hashes@, serials@, rendered_of(self.history@)));
                }
                ApiRequest::PublishStatus {
                    namespace: self.zonefile.namespace.clone(),
                    name: self.zonefile.name.clone(),
                    hashes,
                    serials,
                }
            },
            Phase::Done => ApiRequest::Requeue { seconds: RECONCILE_REQUEUE_SECONDS },
            Phase::Failed => ApiRequest::Requeue { seconds: ERROR_REQUEUE_SECONDS },
        }
    }

    /// Absorbs `zone` into the pass: record it in the history, keep its
    /// rendering if it is ready, and advance to the next reference or to
    /// publishing.
    fn process_zone(&mut self, zone: ZoneState)
        requires
            old(self).next_ref < old(self).zonefile.zone_refs@.len(),
            rendered_views(old(self).rendered@) == rendered_of(old(self).history@),
        ensures
            final(self).wf(),
            processed_zone(*old(self), *final(self), zone),
    {
        let ghost pre_history = self.history@;
        let ghost pre_rendered = self.rendered@;
        proof {
            self.history@ = self.history@.push(zone);
        }
        let rendered = serialize_zone(&zone);
        match rendered {
            Some(rz) => {
                self.rendered.push(rz);
            },
            None => {},
        }
        self.pending = None;
        let n = self.zonefile.zone_refs.len();
        self.next_ref = self.next_ref + 1;
        if self.next_ref < n {
            self.phase = Phase::Fetching;
        } else {
            self.phase = Phase::PublishingArtifact;
        }
        proof {
            assert(self.history@.drop_last() =~= pre_history);
            assert(self.history@.last() == zone);
            if zone_ready(zone) {
                assert(rendered_views(self.rendered@) =~= rendered_views(pre_rendered).push(
                    self.rendered@.last()@,
                ));
                assert(rendered_of(self.history@) =~= rendered_of(pre_history).push(
                    serialize_zone_spec(zone)->0,
                ));
                assert(rendered_views(self.rendered@) =~= rendered_of(self.history@));
            } else {
                assert(rendered_of(self.history@) =~= rendered_of(pre_history));
            }
        }
    }

    /// The fetch succeeded. If the zone's back-reference label already holds
    /// the desired value the zone is processed at once (no write is issued —
    /// the linker is idempotent); otherwise the pass first asks for the
    /// label write and holds the zone pending.
    pub fn on_zone_fetched(&mut self, zone: ZoneState)
        requires
            old(self).wf(),
            old(self).phase is Fetching,
        ensures
            final(self).wf(),
            final(self).zonefile == old(self).zonefile,
            ({
                let desired = backref_value_spec(
                    old(self).zonefile.name@,
                    old(self).zonefile.namespace@,
                );
                if link_write_needed(opt_string_view(zone.backref_label), desired) {
                    &&& final(self).phase is Linking
                    &&& final(self).pending == Some(zone)
                    &&& final(self).history@ == old(self).history@
                    &&& final(self).rendered@ == old(self).rendered@
                    &&& final(self).next_ref == old(self).next_ref
                } else {
                    processed_zone(*old(self), *final(self), zone)
                }
            }),
    {
        let desired = backref_value(self.zonefile.name.as_str(), self.zonefile.namespace.as_str());
        if link_needed(zone.backref_label.as_ref(), &desired) {
            self.pending = Some(zone);
            self.phase = Phase::Linking;
        } else {
            self.process_zone(zone);
        }
    }

    /// The back-reference write succeeded: the pending zone is processed.
    pub fn on_backref_written(&mut self)
        requires
            old(self).wf(),
            old(self).phase is Linking,
        ensures
            final(self).wf(),
            final(self).zonefile == old(self).zonefile,
            processed_zone(*old(self), *final(self), old(self).pending->0),
    {
        let zone = self.pending.take();
        match zone {
            Some(z) => {
                self.process_zone(z);
            },
            None => {
                proof {
                    assert(false);
                }
            },
        }
    }

    /// The artifact apply succeeded: publish the status next.
    pub fn on_artifact_published(&mut self)
        requires
            old(self).wf(),
            old(self).phase is PublishingArtifact,
        ensures
            final(self).wf(),
            *final(self) == (Reconciler { phase: Phase::PublishingStatus, ..*old(self) }),
    {
        self.phase = Phase::PublishingStatus;
    }

    /// The status patch succeeded: the pass is done, requeue after the
    /// configured period.
    pub fn on_status_published(&mut self)
        requires
            old(self).wf(),
            old(self).phase is PublishingStatus,
        ensures
            final(self).wf(),
            *final(self) == (Reconciler { phase: Phase::Done, ..*old(self) }),
    {
        self.phase = Phase::Done;
    }

    /// An API call failed: the whole pass aborts — nothing more is rendered
    /// or published this pass — and the engine asks for a retry after the
    /// error delay.
    pub fn on_api_error(&mut self)
        requires
            old(self).wf(),
        ensures
            final(self).wf(),
            final(self).phase is Failed,
            final(self).zonefile == old(self).zonefile,
            final(self).history@ == old(self).history@,
            final(self).rendered@ == old(self).rendered@,
    {
        self.pending = None;
        self.phase = Phase::Failed;
    }
}

/// Published artifact data never carries an origin whose zone was unready
/// this pass (and that no other ready zone of the pass shares): such an
/// origin appears in no (origin, contents) entry.
pub proof fn lemma_absent_origin_not_in_data(
    data: Seq<(String, String)>,
    zs: Seq<ZoneState>,
    o: Seq<char>,
)
    requires
        artifact_pairs_ok(data, rendered_of(zs)),
        forall|i: int|
            0 <= i < zs.len() ==> !(zone_ready(#[trigger] zs[i]) && zs[i].fqdn->0@ == o),
    ensures
        forall|j: int| 0 <= j < data.len() ==> (#[trigger] data[j]).0@ != o,
{
    lemma_rendered_origins(zs, o);
}

/// Law: wholesale replace drops regressed origins. The maps a pass publishes
/// are built from that pass's renderings alone, so an origin whose zone is
/// unready this pass — whatever any earlier pass published — is absent from
/// the artifact and from both status maps, provided no other ready zone of
/// the pass shares the origin.
pub proof fn lemma_drop_on_regression(zs: Seq<ZoneState>, o: Seq<char>)
    requires
        forall|i: int|
            0 <= i < zs.len() ==> !(zone_ready(#[trigger] zs[i]) && zs[i].fqdn->0@ == o),
    ensures
        !artifact_map(rendered_of(zs)).contains_key(o),
        !hash_map_of(rendered_of(zs)).contains_key(o),
        !serial_map_of(rendered_of(zs)).contains_key(o),
{
    lemma_rendered_origins(zs, o);
    lemma_origin_absent_from_maps(rendered_of(zs), o);
}

} // verus!

//! The admission decision: containers are checked in order, the first image
//! that is not trusted denies the request, and a request that cannot be
//! evaluated is an error rather than a decision.

use vstd::prelude::*;
use crate::document::{declared_images, images_of, normalize, ContainerSpec, Document};
use crate::policy::{evaluate_image, is_trusted, AllowList, Verdict};

verus! {

/// Why a request could not be evaluated. Each is an infrastructure error,
/// never a policy decision.
#[derive(Clone, Copy, Debug, PartialEq, Eq, Structural)]
pub enum EngineError {
    /// The request carries no admitted object.
    MissingObject,
    /// The object has no `spec.containers` array.
    MissingContainers,
    /// A container that had to be checked has no string `image`.
    MissingImage,
}

pub open spec fn error_text(e: EngineError) -> Seq<char> {
    match e {
        EngineError::MissingObject => "could not get object from the request body"@,
        EngineError::MissingContainers => "could not get containers"@,
        EngineError::MissingImage => "could not resolve image from container"@,
    }
}

impl EngineError {
    /// The text reported to the caller for this error.
    pub fn message(&self) -> (r: String)
        ensures
            r@ == error_text(*self),
    {
        match self {
            EngineError::MissingObject => String::from_str("could not get object from the request body"),
            EngineError::MissingContainers => String::from_str("could not get containers"),
            EngineError::MissingImage => String::from_str("could not resolve image from container"),
        }
    }
}

/// The inbound unit of work.
pub struct AdmissionRequest {
    /// Opaque identifier, echoed in the decision.
    pub uid: String,
    /// The kind of the admitted object.
    pub kind: String,
    /// The admitted object, without its type and metadata fields.
    pub object: Option<Document>,
}

/// The outcome of a request that could be evaluated.
pub struct AdmissionDecision {
    pub uid: String,
    pub allowed: bool,
    /// On denial, names the offending image and the allow-list.
    pub reason: Option<String>,
}

pub struct DecisionView {
    pub uid: Seq<char>,
    pub allowed: bool,
    pub reason: Option<Seq<char>>,
}

impl View for AdmissionDecision {
    type V = DecisionView;

    open spec fn view(&self) -> DecisionView {
        DecisionView {
            uid: self.uid@,
            allowed: self.allowed,
            reason: match self.reason {
                Some(s) => Some(s@),
                None => None,
            },
        }
    }
}

/// Where a scan of the containers stopped.
#[derive(Clone, Copy, Debug, PartialEq, Eq, Structural)]
pub enum Scan {
    /// Every container has a trusted image.
    AllTrusted,
    /// The container at this index is the first with an untrusted image.
    Untrusted(usize),
    /// The container at this index has no image, and all before it are trusted.
    NoImage(usize),
}

/// The scan of `cs` from index `i` on.
pub open spec fn scan_from(cs: Seq<Option<Seq<char>>>, allowed: Seq<Seq<char>>, i: int) -> Scan
    decreases cs.len() - i,
{
    if i < 0 || i >= cs.len() {
        Scan::AllTrusted
    } else {
        match cs[i] {
            None => Scan::NoImage(i as usize),
            Some(img) => if is_trusted(img, allowed) {
                scan_from(cs, allowed, i + 1)
            } else {
                Scan::Untrusted(i as usize)
            },
        }
    }
}

/// Image `c` is present, and trusted.
pub open spec fn passes(c: Option<Seq<char>>, allowed: Seq<Seq<char>>) -> bool {
    c is Some && is_trusted(c->Some_0, allowed)
}

/// The denial text for `image`, given the rendering of the allow-list.
pub open spec fn denial_text(image: Seq<char>, listing: Seq<char>) -> Seq<char> {
    image + " image comes from an untrusted registry! only images from "@ + listing
        + " are allowed"@
}

/// The rendering of a list of strings by the standard `Debug` formatting of
/// `Vec<String>`.
pub uninterp spec fn debug_listing(items: Seq<Seq<char>>) -> Seq<char>;

/// The decision on a container list, for request `uid`.
pub open spec fn decision_for(uid: Seq<char>, cs: Seq<Option<Seq<char>>>, allowed: Seq<Seq<char>>) -> Result<
    DecisionView,
    EngineError,
> {
    match scan_from(cs, allowed, 0) {
        Scan::AllTrusted => Ok(DecisionView { uid, allowed: true, reason: None }),
        Scan::Untrusted(k) => Ok(
            DecisionView {
                uid,
                allowed: false,
                reason: Some(denial_text(cs[k as int]->Some_0, debug_listing(allowed))),
            },
        ),
        Scan::NoImage(_) => Err(EngineError::MissingImage),
    }
}

/// The outcome of a whole request.
pub open spec fn review_of(
    uid: Seq<char>,
    object: Option<Document>,
    allowed: Seq<Seq<char>>,
) -> Result<DecisionView, EngineError> {
    match object {
        None => Err(EngineError::MissingObject),
        Some(o) => match declared_images(o) {
            None => Err(EngineError::MissingContainers),
            Some(cs) => decision_for(uid, cs, allowed),
        },
    }
}

/// Relies on the standard library's `Debug` formatting of `Vec<String>`,
/// which depends on the strings alone.
#[verifier::external_body]
fn render_listing(items: &Vec<String>) -> (r: String)
    ensures
        r@ == debug_listing(items.deep_view()),
{
    format!("{:?}", items)
}

/// Scans the containers in order and stops at the first one whose image is
/// missing or untrusted.
pub fn first_violation(containers: &Vec<ContainerSpec>, allowed: &AllowList) -> (r: Scan)
    ensures
        r == scan_from(images_of(containers@), allowed@, 0),
        r matches Scan::Untrusted(k) ==> k < containers@.len() && containers@[k as int].image is Some,
{
    let n = containers.len();
    proof {
        lemma_scan_result(images_of(containers@), allowed@, 0);
    }
    let mut i: usize = 0;
    while i < n
        invariant
            n == containers@.len(),
            i <= n,
            scan_from(images_of(containers@), allowed@, 0) == scan_from(
                images_of(containers@),
                allowed@,
                i as int,
            ),
        decreases n - i,
    {
        match &containers[i].image {
            None => {
                return Scan::NoImage(i);
            },
            Some(image) => {
                if evaluate_image(image.as_str(), allowed) == Verdict::Untrusted {
                    return Scan::Untrusted(i);
                }
            },
        }
        i = i + 1;
    }
    Scan::AllTrusted
}

/// The denial text for `image`, given the rendering `listing` of the
/// allow-list.
pub fn denial_message(image: &str, listing: &str) -> (r: String)
    ensures
        r@ == denial_text(image@, listing@),
{
    let mut r = String::from_str(image);
    r.append(" image comes from an untrusted registry! only images from ");
    r.append(listing);
    r.append(" are allowed");
    r
}

/// The reason given when `image` is denied under `allowed`.
pub fn denial_reason(image: &str, allowed: &AllowList) -> (r: String)
    ensures
        r@ == denial_text(image@, debug_listing(allowed@)),
{
    let listing = render_listing(&allowed.registries);
    denial_message(image, listing.as_str())
}

impl AdmissionDecision {
    /// Admits request `uid`.
    pub fn allow(uid: &String) -> (r: AdmissionDecision)
        ensures
            r@ == (DecisionView { uid: uid@, allowed: true, reason: None }),
    {
        AdmissionDecision { uid: uid.clone(), allowed: true, reason: None }
    }

    /// Denies request `uid` for `reason`.
    pub fn deny(uid: &String, reason: String) -> (r: AdmissionDecision)
        ensures
            r@ == (DecisionView { uid: uid@, allowed: false, reason: Some(reason@) }),
    {
        AdmissionDecision { uid: uid.clone(), allowed: false, reason: Some(reason) }
    }
}

/// Decides request `uid` on its container list.
pub fn decide(uid: &String, containers: &Vec<ContainerSpec>, allowed: &AllowList) -> (r: Result<
    AdmissionDecision,
    EngineError,
>)
    ensures
        match r {
            Ok(d) => decision_for(uid@, images_of(containers@), allowed@) == Ok::<
                DecisionView,
                EngineError,
            >(d@),
            Err(e) => decision_for(uid@, images_of(containers@), allowed@) == Err::<
                DecisionView,
                EngineError,
            >(e),
        },
{
    match first_violation(containers, allowed) {
        Scan::AllTrusted => Ok(AdmissionDecision::allow(uid)),
        Scan::NoImage(_) => Err(EngineError::MissingImage),
        Scan::Untrusted(k) => {
            match &containers[k].image {
                Some(image) => Ok(AdmissionDecision::deny(uid, denial_reason(image.as_str(), allowed))),
                None => Err(EngineError::MissingImage),
            }
        },
    }
}

/// Evaluates an admission request against the allow-list.
pub fn review(request: &AdmissionRequest, allowed: &AllowList) -> (r: Result<
    AdmissionDecision,
    EngineError,
>)
    ensures
        match r {
            Ok(d) => review_of(request.uid@, request.object, allowed@) == Ok::<
                DecisionView,
                EngineError,
            >(d@),
            Err(e) => review_of(request.uid@, request.object, allowed@) == Err::<
                DecisionView,
                EngineError,
            >(e),
        },
{
    let object = match &request.object {
        Some(o) => o,
        None => {
            return Err(EngineError::MissingObject);
        },
    };
    match normalize(object) {
        Some(containers) => decide(&request.uid, &containers, allowed),
        None => Err(EngineError::MissingContainers),
    }
}

/// What a scan from `i` reports: every container from `i` up to where it
/// stopped passes, and the one where it stopped is the reported fault.
pub proof fn lemma_scan_result(cs: Seq<Option<Seq<char>>>, allowed: Seq<Seq<char>>, i: int)
    requires
        0 <= i <= cs.len(),
        cs.len() <= usize::MAX,
    ensures
        match scan_from(cs, allowed, i) {
            Scan::AllTrusted => forall|j: int| i <= j < cs.len() ==> passes(#[trigger] cs[j], allowed),
            Scan::Untrusted(k) => i <= k < cs.len() && cs[k as int] is Some
                && !is_trusted(cs[k as int]->Some_0, allowed) && forall|j: int|
                i <= j < k ==> passes(#[trigger] cs[j], allowed),
            Scan::NoImage(k) => i <= k < cs.len() && cs[k as int] is None && forall|j: int|
                i <= j < k ==> passes(#[trigger] cs[j], allowed),
        },
    decreases cs.len() - i,
{
    if i < cs.len() {
        lemma_scan_result(cs, allowed, i + 1);
    }
}

/// A pod without containers is admitted: nothing in it can violate the
/// policy.
pub proof fn lemma_no_containers_admitted(uid: Seq<char>, allowed: Seq<Seq<char>>)
    ensures
        decision_for(uid, Seq::empty(), allowed) == Ok::<DecisionView, EngineError>(
            DecisionView { uid, allowed: true, reason: None },
        ),
{
}

/// Under an empty allow-list no pod with a container is admitted.
pub proof fn lemma_empty_allow_list_admits_nothing(
    uid: Seq<char>,
    cs: Seq<Option<Seq<char>>>,
    allowed: Seq<Seq<char>>,
)
    requires
        allowed.len() == 0,
        cs.len() > 0,
    ensures
        !(decision_for(uid, cs, allowed) matches Ok(d) && d.allowed),
{
    match cs[0] {
        Some(img) => {
            crate::policy::lemma_empty_allow_list_trusts_nothing(img, allowed);
        },
        None => {},
    }
}

/// The denial names the first container whose image is untrusted, when all
/// containers before it pass: a later untrusted image is never the one
/// reported.
pub proof fn lemma_first_violation_reported(
    uid: Seq<char>,
    cs: Seq<Option<Seq<char>>>,
    allowed: Seq<Seq<char>>,
    k: int,
)
    requires
        cs.len() <= usize::MAX,
        0 <= k < cs.len(),
        cs[k] is Some,
        !is_trusted(cs[k]->Some_0, allowed),
        forall|j: int| 0 <= j < k ==> passes(#[trigger] cs[j], allowed),
    ensures
        decision_for(uid, cs, allowed) == Ok::<DecisionView, EngineError>(
            DecisionView {
                uid,
                allowed: false,
                reason: Some(denial_text(cs[k]->Some_0, debug_listing(allowed))),
            },
        ),
{
    lemma_scan_result(cs, allowed, 0);
    match scan_from(cs, allowed, 0) {
        Scan::AllTrusted => {
            assert(passes(cs[k], allowed));
        },
        Scan::Untrusted(m) => {
            if (m as int) < k {
                assert(passes(cs[m as int], allowed));
            } else if (m as int) > k {
                assert(passes(cs[k], allowed));
            }
        },
        Scan::NoImage(m) => {
            if (m as int) < k {
                assert(passes(cs[m as int], allowed));
            } else if (m as int) > k {
                assert(passes(cs[k], allowed));
            }
        },
    }
}

/// A decision always carries the identifier of the request it answers.
pub proof fn lemma_uid_echoed(uid: Seq<char>, object: Option<Document>, allowed: Seq<Seq<char>>)
    ensures
        review_of(uid, object, allowed) matches Ok(d) ==> d.uid == uid,
{
}

/// An object without a `spec.containers` array cannot be evaluated: the
/// outcome is an error, not a decision.
pub proof fn lemma_missing_containers_is_error(
    uid: Seq<char>,
    object: Document,
    allowed: Seq<Seq<char>>,
)
    requires
        declared_images(object) is None,
    ensures
        review_of(uid, Some(object), allowed) == Err::<DecisionView, EngineError>(
            EngineError::MissingContainers,
        ),
{
}

} // verus!

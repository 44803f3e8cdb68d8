//! Delivery targets and the shapes of picture that each of them takes.

use crate::error::{outcome_view, Failure, ProcessError};
use crate::text::str_equal;
use vstd::prelude::*;

verus! {

/// Width and height of a picture in pixels. Dimensions read from a probe
/// are positive.
#[derive(Clone, Copy, Debug, PartialEq, Eq, Structural)]
pub struct Dimensions {
    pub width: u32,
    pub height: u32,
}

impl Dimensions {
    /// Whether the shape has an aspect ratio `width / height` at all. Only
    /// the shape without width and without height has none. A shape with a
    /// width and no height has a ratio beyond every number: it is at least
    /// one and not at most one.
    pub open spec fn has_ratio(self) -> bool {
        self.width > 0 || self.height > 0
    }
}

/// The kind of screen a video is prepared for: `Home` takes pictures whose
/// aspect ratio is at least one, `Flash` pictures whose aspect ratio is at
/// most one. A shape without an aspect ratio is taken by neither.
#[derive(Clone, Copy, Debug, PartialEq, Eq, Structural)]
pub enum DeliveryTarget {
    Home,
    Flash,
}

impl DeliveryTarget {
    /// The word by which a request names the target.
    pub open spec fn name(self) -> Seq<char> {
        match self {
            DeliveryTarget::Home => "home"@,
            DeliveryTarget::Flash => "flash"@,
        }
    }

    /// Whether the target takes a picture of the given shape: `Home` if
    /// its aspect ratio is at least one, `Flash` if it is at most one.
    ///
    /// A shape that has no aspect ratio meets neither condition. Where there
    /// is one, it is compared with one without dividing: `width / height`
    /// is at least one exactly when `width >= height`, and at most one
    /// exactly when `width <= height`.
    pub open spec fn accepts(self, shape: Dimensions) -> bool {
        match self {
            DeliveryTarget::Home => shape.has_ratio() && shape.width >= shape.height,
            DeliveryTarget::Flash => shape.has_ratio() && shape.width <= shape.height,
        }
    }

    /// The word by which a request names the target.
    pub fn label(&self) -> (word: &'static str)
        ensures
            word@ == self.name(),
    {
        match self {
            DeliveryTarget::Home => "home",
            DeliveryTarget::Flash => "flash",
        }
    }

    /// Reads a target from the word a request gives; `None` for any word
    /// other than `home` and `flash`.
    pub fn from_label(word: &str) -> (target: Option<DeliveryTarget>)
        ensures
            target == target_named(word@),
    {
        if str_equal(word, "home") {
            Some(DeliveryTarget::Home)
        } else if str_equal(word, "flash") {
            Some(DeliveryTarget::Flash)
        } else {
            None
        }
    }
}

/// The target whose name is `word`, if there is one.
pub open spec fn target_named(word: Seq<char>) -> Option<DeliveryTarget> {
    if word == DeliveryTarget::Home.name() {
        Some(DeliveryTarget::Home)
    } else if word == DeliveryTarget::Flash.name() {
        Some(DeliveryTarget::Flash)
    } else {
        None
    }
}

/// The two targets have different names.
pub proof fn lemma_target_names(target: DeliveryTarget)
    ensures
        target_named(target.name()) == Some(target),
{
    reveal_strlit("home");
    reveal_strlit("flash");
    assert("home"@.len() == 4);
    assert("flash"@.len() == 5);
}

/// What checking a requested format against a picture's shape yields: the
/// target, or the reason for turning the request down.
pub open spec fn format_verdict(shape: Dimensions, format: Seq<char>) -> Result<
    DeliveryTarget,
    Failure,
> {
    match target_named(format) {
        None => Err(Failure::UnknownFormat),
        Some(target) => if target.accepts(shape) {
            Ok(target)
        } else {
            Err(Failure::InvalidAspectRatio(target))
        },
    }
}

/// Checks the requested format against the shape of the source picture.
/// `home` is accepted for pictures whose aspect ratio is at least one
/// (`width >= height`), `flash` for pictures whose aspect ratio is at most
/// one (`width <= height`), and no other word is accepted at all. A shape
/// without width and without height has no aspect ratio and is accepted for
/// neither.
pub fn validate_format(shape: Dimensions, format: &str) -> (verdict: Result<
    DeliveryTarget,
    ProcessError,
>)
    ensures
        outcome_view(verdict) == format_verdict(shape, format@),
{
    let has_ratio = shape.width > 0 || shape.height > 0;
    match DeliveryTarget::from_label(format) {
        None => Err(ProcessError::UnknownFormat),
        Some(DeliveryTarget::Home) => {
            if has_ratio && shape.width >= shape.height {
                Ok(DeliveryTarget::Home)
            } else {
                Err(ProcessError::InvalidAspectRatio(DeliveryTarget::Home))
            }
        },
        Some(DeliveryTarget::Flash) => {
            if has_ratio && shape.width <= shape.height {
                Ok(DeliveryTarget::Flash)
            } else {
                Err(ProcessError::InvalidAspectRatio(DeliveryTarget::Flash))
            }
        },
    }
}

/// Every shape that has an aspect ratio is taken by at least one of the
/// targets, and the squares among them are the only shapes that both take.
pub proof fn lemma_targets_share_squares(shape: Dimensions)
    requires
        shape.has_ratio(),
    ensures
        DeliveryTarget::Home.accepts(shape) || DeliveryTarget::Flash.accepts(shape),
        (DeliveryTarget::Home.accepts(shape) && DeliveryTarget::Flash.accepts(shape))
            <==> shape.width == shape.height,
{
}

/// A shape without an aspect ratio is taken by neither target, so a request
/// for it is turned down whatever format it names.
pub proof fn lemma_no_ratio_no_target(shape: Dimensions, format: Seq<char>)
    requires
        !shape.has_ratio(),
    ensures
        !DeliveryTarget::Home.accepts(shape),
        !DeliveryTarget::Flash.accepts(shape),
        format_verdict(shape, format) is Err,
        target_named(format) matches Some(target) ==> format_verdict(shape, format) == Err::<
            DeliveryTarget,
            Failure,
        >(Failure::InvalidAspectRatio(target)),
{
}

/// What acceptance says about the aspect ratio of a picture with a positive
/// height: `Home` takes it exactly when the height goes into the width at
/// least once, `Flash` exactly when it goes into it at most once and then
/// without remainder.
pub proof fn lemma_acceptance_by_ratio(shape: Dimensions)
    requires
        shape.height > 0,
    ensures
        DeliveryTarget::Home.accepts(shape) <==> shape.width / shape.height >= 1,
        DeliveryTarget::Flash.accepts(shape) <==> (shape.width / shape.height == 0 || (shape.width
            / shape.height == 1 && shape.width % shape.height == 0)),
{
    let w = shape.width as int;
    let h = shape.height as int;
    assert(w == h * (w / h) + w % h && 0 <= w % h < h) by (nonlinear_arith)
        requires
            h > 0,
            w >= 0,
    ;
    assert(w >= h <==> w / h >= 1) by (nonlinear_arith)
        requires
            h > 0,
            w >= 0,
            w == h * (w / h) + w % h,
            0 <= w % h < h,
    ;
    assert(w <= h <==> (w / h == 0 || (w / h == 1 && w % h == 0))) by (nonlinear_arith)
        requires
            h > 0,
            w >= 0,
            w == h * (w / h) + w % h,
            0 <= w % h < h,
    ;
}

/// A request is accepted exactly when its format names a target and that
/// target takes the picture's shape; the verdict then is that target.
pub proof fn lemma_format_accepted_iff(shape: Dimensions, format: Seq<char>)
    ensures
        format_verdict(shape, format) is Ok <==> (target_named(format) matches Some(target)
            && target.accepts(shape)),
        format == DeliveryTarget::Home.name() ==> (format_verdict(shape, format) is Ok
            <==> shape.has_ratio() && shape.width >= shape.height),
        format == DeliveryTarget::Flash.name() ==> (format_verdict(shape, format) is Ok
            <==> shape.has_ratio() && shape.width <= shape.height),
        format != DeliveryTarget::Home.name() && format != DeliveryTarget::Flash.name()
            ==> format_verdict(shape, format) == Err::<DeliveryTarget, Failure>(
            Failure::UnknownFormat,
        ),
{
    lemma_target_names(DeliveryTarget::Home);
    lemma_target_names(DeliveryTarget::Flash);
}

} // verus!

use vstd::prelude::*;

use crate::clock::ledger_time;
use crate::identity::Identity;

verus! {

/// A content identifier must be shorter than this many bytes.
pub const CID_LIMIT: usize = 200;

/// A project name must be shorter than this many bytes.
pub const NAME_LIMIT: usize = 100;

/// Why a whitepaper was refused.
#[derive(Clone, Copy, Debug, PartialEq, Eq, Structural)]
pub enum WhitepaperError {
    /// The content identifier has `CID_LIMIT` bytes or more.
    CIDTooLong,
    /// The project name has `NAME_LIMIT` bytes or more.
    NameTooLong,
    /// The ledger's clock could not be read.
    ClockUnavailable,
}

/// One version of an author's whitepaper.
#[derive(Debug, PartialEq, Eq)]
pub struct WhitepaperState {
    pub author: Identity,
    /// Where the content is found.
    pub cid: String,
    /// The versions count from 1.
    pub version: u64,
    /// When the version was submitted.
    pub timestamp: i64,
    pub bump: u8,
}

/// What is known of an author's whitepaper over all its versions.
#[derive(Debug, PartialEq, Eq)]
pub struct WhitepaperMeta {
    pub author: Identity,
    /// Where the content of the latest version is found.
    pub latest_cid: String,
    /// How many versions were submitted.
    pub version_count: u64,
    /// When the latest version was submitted.
    pub last_updated: i64,
    /// The name under which the first version was submitted.
    pub project_name: String,
}

/// The notice of a submitted version.
#[derive(Debug, PartialEq, Eq)]
pub struct WhitepaperSubmitted {
    pub author: Identity,
    pub cid: String,
    pub version: u64,
}

/// What a submission reads and writes.
#[derive(Debug, PartialEq, Eq)]
pub struct SubmitWhitepaper {
    /// The author's record over all versions.
    pub meta: WhitepaperMeta,
    /// Who submits.
    pub author: Identity,
    /// The bump under which the version's record is kept.
    pub bump: u8,
}

/// A version as plain values.
pub struct WhitepaperStateView {
    pub author: Identity,
    pub cid: Seq<char>,
    pub version: u64,
    pub timestamp: i64,
    pub bump: u8,
}

/// An author's record as plain values.
pub struct WhitepaperMetaView {
    pub author: Identity,
    pub latest_cid: Seq<char>,
    pub version_count: u64,
    pub last_updated: i64,
    pub project_name: Seq<char>,
}

/// A notice as plain values.
pub struct WhitepaperSubmittedView {
    pub author: Identity,
    pub cid: Seq<char>,
    pub version: u64,
}

impl View for WhitepaperState {
    type V = WhitepaperStateView;

    open spec fn view(&self) -> WhitepaperStateView {
        WhitepaperStateView {
            author: self.author,
            cid: self.cid@,
            version: self.version,
            timestamp: self.timestamp,
            bump: self.bump,
        }
    }
}

impl View for WhitepaperMeta {
    type V = WhitepaperMetaView;

    open spec fn view(&self) -> WhitepaperMetaView {
        WhitepaperMetaView {
            author: self.author,
            latest_cid: self.latest_cid@,
            version_count: self.version_count,
            last_updated: self.last_updated,
            project_name: self.project_name@,
        }
    }
}

impl View for WhitepaperSubmitted {
    type V = WhitepaperSubmittedView;

    open spec fn view(&self) -> WhitepaperSubmittedView {
        WhitepaperSubmittedView { author: self.author, cid: self.cid@, version: self.version }
    }
}

/// Why a submission is refused, if it is: the content identifier is tried
/// before the project name.  The lengths are those of the UTF-8 forms.
pub open spec fn submission_rejection(cid: Seq<char>, project_name: Seq<char>) -> Option<
    WhitepaperError,
> {
    if vstd::utf8::encode_utf8(cid).len() >= CID_LIMIT {
        Some(WhitepaperError::CIDTooLong)
    } else if vstd::utf8::encode_utf8(project_name).len() >= NAME_LIMIT {
        Some(WhitepaperError::NameTooLong)
    } else {
        None
    }
}

/// The author's record after an accepted submission: one version more, the
/// latest content and time, and the project name of the first version.
pub open spec fn meta_after(
    meta: WhitepaperMetaView,
    author: Identity,
    cid: Seq<char>,
    project_name: Seq<char>,
    now: i64,
) -> WhitepaperMetaView {
    WhitepaperMetaView {
        author,
        latest_cid: cid,
        version_count: (meta.version_count + 1) as u64,
        last_updated: now,
        project_name: if meta.version_count == 0 {
            project_name
        } else {
            meta.project_name
        },
    }
}

/// The record of the version that an accepted submission creates: numbered
/// one above the versions so far.
pub open spec fn version_record(ctx: SubmitWhitepaper, cid: Seq<char>, now: i64)
    -> WhitepaperStateView {
    WhitepaperStateView {
        author: ctx.author,
        cid,
        version: (ctx.meta.version_count + 1) as u64,
        timestamp: now,
        bump: ctx.bump,
    }
}

/// The notice of the version that an accepted submission creates.
pub open spec fn version_notice(ctx: SubmitWhitepaper, cid: Seq<char>) -> WhitepaperSubmittedView {
    WhitepaperSubmittedView {
        author: ctx.author,
        cid,
        version: (ctx.meta.version_count + 1) as u64,
    }
}

/// Submits a new version of the author's whitepaper at the time `now`.
///
/// It is accepted exactly when the content identifier is shorter than
/// `CID_LIMIT` bytes and the project name shorter than `NAME_LIMIT`.  The
/// version's record and its notice are then returned, numbered one above
/// the versions so far, and the author's record is brought up to date; the
/// project name is kept from the first version.  A refused submission
/// returns the reason and leaves the author's record as it was.
pub fn submit_whitepaper_at(
    ctx: &mut SubmitWhitepaper,
    cid: String,
    project_name: String,
    now: i64,
) -> (r: Result<(WhitepaperState, WhitepaperSubmitted), WhitepaperError>)
    requires
        old(ctx).meta.version_count < u64::MAX,
    ensures
        final(ctx).author == old(ctx).author,
        final(ctx).bump == old(ctx).bump,
        submission_rejection(cid@, project_name@) matches Some(e) ==> r == Err::<
            (WhitepaperState, WhitepaperSubmitted),
            WhitepaperError,
        >(e) && final(ctx).meta == old(ctx).meta,
        submission_rejection(cid@, project_name@) is None ==> r is Ok && final(ctx).meta@
            == meta_after(old(ctx).meta@, old(ctx).author, cid@, project_name@, now),
        r is Err ==> final(ctx).meta == old(ctx).meta,
        r matches Ok((whitepaper, notice)) ==> whitepaper@ == version_record(*old(ctx), cid@, now)
            && notice@ == version_notice(*old(ctx), cid@),
{
    if cid.as_str().as_bytes().len() >= CID_LIMIT {
        return Err(WhitepaperError::CIDTooLong);
    }
    if project_name.as_str().as_bytes().len() >= NAME_LIMIT {
        return Err(WhitepaperError::NameTooLong);
    }
    let version: u64 = ctx.meta.version_count + 1;
    let whitepaper = WhitepaperState {
        author: ctx.author,
        cid: cid.clone(),
        version,
        timestamp: now,
        bump: ctx.bump,
    };
    ctx.meta.author = ctx.author;
    ctx.meta.version_count = version;
    ctx.meta.latest_cid = cid.clone();
    ctx.meta.last_updated = now;
    if version == 1 {
        ctx.meta.project_name = project_name;
    }
    let notice = WhitepaperSubmitted { author: ctx.author, cid, version };
    Ok((whitepaper, notice))
}

/// Submits a new version of the author's whitepaper at the time that the
/// ledger's clock shows.
///
/// The clock is read only for a submission that is not refused for its
/// lengths.  Where it cannot be read the submission is refused with
/// `ClockUnavailable` and the author's record stays as it was; otherwise
/// the result is that of `submit_whitepaper_at` at the time read.
pub fn submit_whitepaper(ctx: &mut SubmitWhitepaper, cid: String, project_name: String) -> (r:
    Result<(WhitepaperState, WhitepaperSubmitted), WhitepaperError>)
    requires
        old(ctx).meta.version_count < u64::MAX,
    ensures
        final(ctx).author == old(ctx).author,
        final(ctx).bump == old(ctx).bump,
        submission_rejection(cid@, project_name@) matches Some(e) ==> r == Err::<
            (WhitepaperState, WhitepaperSubmitted),
            WhitepaperError,
        >(e),
        r is Err ==> final(ctx).meta == old(ctx).meta,
        r matches Err(e) ==> e == WhitepaperError::ClockUnavailable || submission_rejection(
            cid@,
            project_name@,
        ) == Some(e),
        r matches Ok((whitepaper, notice)) ==> exists|now: i64|
            final(ctx).meta@ == #[trigger] meta_after(
                old(ctx).meta@,
                old(ctx).author,
                cid@,
                project_name@,
                now,
            ) && whitepaper@ == version_record(*old(ctx), cid@, now) && notice@ == version_notice(
                *old(ctx),
                cid@,
            ),
{
    if cid.as_str().as_bytes().len() >= CID_LIMIT {
        return Err(WhitepaperError::CIDTooLong);
    }
    if project_name.as_str().as_bytes().len() >= NAME_LIMIT {
        return Err(WhitepaperError::NameTooLong);
    }
    match ledger_time() {
        Some(now) => submit_whitepaper_at(ctx, cid, project_name, now),
        None => Err(WhitepaperError::ClockUnavailable),
    }
}

} // verus!

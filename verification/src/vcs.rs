//! The repository acquirer.
//!
//! Acquiring a repository means making sure a working copy exists at a
//! deterministic path under a destination root and is checked out at the
//! requested ref.  The decisions are made here, as a plan of version-control
//! commands; the unverified shell runs the commands, with the working copy
//! as current directory, and reports each command's outcome back.

use vstd::prelude::*;
use vstd::string::StringExecFns;
use crate::errors::BuildError;
use crate::path::DirPath;

verus! {

/// One version-control operation, to be run inside the working copy.
#[derive(Debug, PartialEq, Eq)]
pub enum VcsCommand {
    /// Initialize an empty working copy.
    Init,
    /// Register a remote under a name.
    RemoteAdd { name: String, url: String },
    /// Fetch one ref from a remote.
    Fetch { remote: String, refname: String },
    /// Hard-reset the working copy to a ref, discarding local changes.
    HardReset { refname: String },
    /// Recursively initialize and update sub-repositories.
    SubmoduleUpdate,
    /// Clone one ref of a remote, shallowly, into a directory.
    CloneShallow { url: String, refname: String, directory: String },
}

/// The mathematical value of a [`VcsCommand`].
pub enum VcsCommandView {
    Init,
    RemoteAdd { name: Seq<char>, url: Seq<char> },
    Fetch { remote: Seq<char>, refname: Seq<char> },
    HardReset { refname: Seq<char> },
    SubmoduleUpdate,
    CloneShallow { url: Seq<char>, refname: Seq<char>, directory: Seq<char> },
}

impl View for VcsCommand {
    type V = VcsCommandView;

    open spec fn view(&self) -> VcsCommandView {
        match self {
            VcsCommand::Init => VcsCommandView::Init,
            VcsCommand::RemoteAdd { name, url } => VcsCommandView::RemoteAdd {
                name: name@,
                url: url@,
            },
            VcsCommand::Fetch { remote, refname } => VcsCommandView::Fetch {
                remote: remote@,
                refname: refname@,
            },
            VcsCommand::HardReset { refname } => VcsCommandView::HardReset { refname: refname@ },
            VcsCommand::SubmoduleUpdate => VcsCommandView::SubmoduleUpdate,
            VcsCommand::CloneShallow { url, refname, directory } => VcsCommandView::CloneShallow {
                url: url@,
                refname: refname@,
                directory: directory@,
            },
        }
    }
}

impl DeepView for VcsCommand {
    type V = VcsCommandView;

    open spec fn deep_view(&self) -> VcsCommandView {
        self.view()
    }
}

/// A plan for bringing a working copy to the requested checkout state.
pub struct AcquirePlan {
    /// Where the working copy lives: `<destination root>/<identifier>`.
    pub working_copy: DirPath,
    /// The commands to run there, in order.
    pub steps: Vec<VcsCommand>,
    /// Whether the working copy is created by this plan rather than reused,
    /// so a caller can make cache-invalidation decisions without probing
    /// the filesystem.
    pub freshly_created: bool,
}

/// The deterministic location of a working copy under a destination root.
pub open spec fn spec_working_copy(destination_root: Seq<Seq<char>>, id: Seq<char>) -> Seq<
    Seq<char>,
> {
    destination_root.push(id)
}

/// The commands that bring a working copy to the requested ref: a fresh
/// destination is initialized and wired to the remote first; an existing one
/// is fetched and hard-reset in place, never re-cloned.
pub open spec fn spec_acquire_steps(
    url: Seq<char>,
    refname: Seq<char>,
    destination_exists: bool,
) -> Seq<VcsCommandView> {
    let common = seq![
        VcsCommandView::Fetch { remote: "origin"@, refname: refname },
        VcsCommandView::HardReset { refname: refname },
        VcsCommandView::SubmoduleUpdate,
    ];
    if destination_exists {
        common
    } else {
        seq![
            VcsCommandView::Init,
            VcsCommandView::RemoteAdd { name: "origin"@, url: url },
        ] + common
    }
}

/// Plan the acquisition of a repository: decide where the working copy goes
/// and which version-control commands bring it to the requested ref, given
/// whether the destination already exists.
pub fn acquire_plan(
    id: &str,
    url: &str,
    refname: &str,
    destination_root: &DirPath,
    destination_exists: bool,
) -> (r: AcquirePlan)
    ensures
        r.working_copy@ == spec_working_copy(destination_root@, id@),
        r.steps.deep_view() == spec_acquire_steps(url@, refname@, destination_exists),
        r.freshly_created == !destination_exists,
{
    let working_copy = destination_root.join(id);
    let mut steps: Vec<VcsCommand> = Vec::new();
    if !destination_exists {
        steps.push(VcsCommand::Init);
        steps.push(
            VcsCommand::RemoteAdd { name: String::from_str("origin"), url: String::from_str(url) },
        );
    }
    steps.push(
        VcsCommand::Fetch {
            remote: String::from_str("origin"),
            refname: String::from_str(refname),
        },
    );
    steps.push(VcsCommand::HardReset { refname: String::from_str(refname) });
    steps.push(VcsCommand::SubmoduleUpdate);
    proof {
        assert(steps.deep_view() =~= spec_acquire_steps(url@, refname@, destination_exists));
    }
    AcquirePlan { working_copy, steps, freshly_created: !destination_exists }
}

/// The commands of the one-shot shallow-clone variant: an existing working
/// copy is reused untouched; a missing one is cloned at the requested ref.
pub open spec fn spec_clone_repo_steps(
    id: Seq<char>,
    url: Seq<char>,
    refname: Seq<char>,
    destination_exists: bool,
) -> Seq<VcsCommandView> {
    if destination_exists {
        Seq::empty()
    } else {
        seq![VcsCommandView::CloneShallow { url: url, refname: refname, directory: id }]
    }
}

/// Plan the one-shot shallow clone of a repository: reuse the working copy
/// when it is already present, otherwise clone the requested ref into it.
pub fn clone_repo_plan(
    id: &str,
    url: &str,
    refname: &str,
    destination_root: &DirPath,
    destination_exists: bool,
) -> (r: AcquirePlan)
    ensures
        r.working_copy@ == spec_working_copy(destination_root@, id@),
        r.steps.deep_view() == spec_clone_repo_steps(id@, url@, refname@, destination_exists),
        r.freshly_created == !destination_exists,
{
    let working_copy = destination_root.join(id);
    let mut steps: Vec<VcsCommand> = Vec::new();
    if !destination_exists {
        steps.push(
            VcsCommand::CloneShallow {
                url: String::from_str(url),
                refname: String::from_str(refname),
                directory: String::from_str(id),
            },
        );
    }
    proof {
        assert(steps.deep_view() =~= spec_clone_repo_steps(id@, url@, refname@, destination_exists));
    }
    AcquirePlan { working_copy, steps, freshly_created: !destination_exists }
}

/// Acquisition is idempotent: a second acquisition with the same identifier,
/// remote and ref finds the destination present and so runs exactly the
/// trailing fetch, hard-reset and submodule update of the first run — it
/// never initializes or clones again, and it ends at the same hard-reset
/// ref, so the working copy is left in the same checkout state.
pub proof fn lemma_acquire_idempotent(url: Seq<char>, refname: Seq<char>)
    ensures
        spec_acquire_steps(url, refname, true) == spec_acquire_steps(url, refname, false).skip(2),
        forall|i: int|
            0 <= i < spec_acquire_steps(url, refname, true).len() ==> !(
            #[trigger] spec_acquire_steps(url, refname, true)[i] is Init) && !(spec_acquire_steps(
                url,
                refname,
                true,
            )[i] is CloneShallow),
        spec_acquire_steps(url, refname, true)[1] == (VcsCommandView::HardReset {
            refname: refname,
        }),
        spec_acquire_steps(url, refname, false)[3] == (VcsCommandView::HardReset {
            refname: refname,
        }),
{
    assert(spec_acquire_steps(url, refname, true) =~= spec_acquire_steps(url, refname, false).skip(
        2,
    ));
}

/// Interpret the observed outcome of one version-control command: `None`
/// when the client could not be invoked at all, `Some(code)` when it ran and
/// exited with `code`.  Only exit status zero is success.
pub fn judge_vcs_status(status: Option<i32>) -> (r: Result<(), BuildError>)
    ensures
        r is Ok <==> status == Some(0i32),
        status is None ==> r == Err::<(), BuildError>(BuildError::VcsToolMissing),
        status is Some && status != Some(0i32) ==> r == Err::<(), BuildError>(
            BuildError::VcsOperationFailed,
        ),
{
    match status {
        None => Err(BuildError::VcsToolMissing),
        Some(0) => Ok(()),
        Some(_) => Err(BuildError::VcsOperationFailed),
    }
}

} // verus!

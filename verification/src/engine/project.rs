//! Projects, and the directories that hold their state.

use vstd::prelude::*;

use crate::duplicate::{outcome, Duplicate};
use crate::engine::global_config::{
    GlobalConfig, GlobalConfigError, GlobalConfigErrorView, GlobalConfigView,
};
use crate::engine::hooks::{HookConfig, HookConfigView};
use crate::text::{
    after_last, after_last_str, first_where, from_chars, is_digit, is_first, join_path,
    lemma_first_is, lemma_first_none, path_join, str_eq, to_chars,
};

verus! {

/// A repository whose tasks are kept.
#[derive(Debug, PartialEq, Eq)]
pub struct Project {
    pub git_root: String,
    pub slug: String,
    pub state_dir: String,
    pub global_config: GlobalConfig,
    pub global_hooks: HookConfig,
    pub project_hooks: HookConfig,
}

/// The contents of a `Project`.
#[verifier::ext_equal]
pub struct ProjectView {
    pub git_root: Seq<char>,
    pub slug: Seq<char>,
    pub state_dir: Seq<char>,
    pub global_config: GlobalConfigView,
    pub global_hooks: HookConfigView,
    pub project_hooks: HookConfigView,
}

impl View for Project {
    type V = ProjectView;

    open spec fn view(&self) -> ProjectView {
        ProjectView {
            git_root: self.git_root@,
            slug: self.slug@,
            state_dir: self.state_dir@,
            global_config: self.global_config@,
            global_hooks: self.global_hooks@,
            project_hooks: self.project_hooks@,
        }
    }
}

impl DeepView for Project {
    type V = ProjectView;

    open spec fn deep_view(&self) -> ProjectView {
        self@
    }
}

impl Duplicate for Project {
    fn duplicate(&self) -> (r: Self) {
        Project {
            git_root: self.git_root.duplicate(),
            slug: self.slug.duplicate(),
            state_dir: self.state_dir.duplicate(),
            global_config: self.global_config.duplicate(),
            global_hooks: self.global_hooks.duplicate(),
            project_hooks: self.project_hooks.duplicate(),
        }
    }
}

impl Clone for Project {
    fn clone(&self) -> (r: Self)
        ensures
            r@ == self@,
    {
        self.duplicate()
    }
}


/// Why a project could not be found.
#[derive(Debug, PartialEq, Eq)]
pub enum ProjectError {
    NotInGitRepository,
    HomeDirectoryMissing,
    GitRootCanonicalize { path: String, message: String },
    CreateStateDir { path: String, message: String },
    SourcePathRead { path: String, message: String },
    SourcePathWrite { path: String, message: String },
    HashSlugCollision { path: String },
    GlobalConfig(GlobalConfigError),
}

/// The contents of a `ProjectError`.
#[verifier::ext_equal]
pub enum ProjectErrorView {
    NotInGitRepository,
    HomeDirectoryMissing,
    GitRootCanonicalize { path: Seq<char>, message: Seq<char> },
    CreateStateDir { path: Seq<char>, message: Seq<char> },
    SourcePathRead { path: Seq<char>, message: Seq<char> },
    SourcePathWrite { path: Seq<char>, message: Seq<char> },
    HashSlugCollision { path: Seq<char> },
    GlobalConfig(GlobalConfigErrorView),
}

impl View for ProjectError {
    type V = ProjectErrorView;

    open spec fn view(&self) -> ProjectErrorView {
        match self {
            ProjectError::NotInGitRepository => ProjectErrorView::NotInGitRepository,
            ProjectError::HomeDirectoryMissing => ProjectErrorView::HomeDirectoryMissing,
            ProjectError::GitRootCanonicalize { path, message } => ProjectErrorView::GitRootCanonicalize { path: path@, message: message@ },
            ProjectError::CreateStateDir { path, message } => ProjectErrorView::CreateStateDir { path: path@, message: message@ },
            ProjectError::SourcePathRead { path, message } => ProjectErrorView::SourcePathRead { path: path@, message: message@ },
            ProjectError::SourcePathWrite { path, message } => ProjectErrorView::SourcePathWrite { path: path@, message: message@ },
            ProjectError::HashSlugCollision { path } => ProjectErrorView::HashSlugCollision { path: path@ },
            ProjectError::GlobalConfig(inner) => ProjectErrorView::GlobalConfig(inner@),
        }
    }
}

impl DeepView for ProjectError {
    type V = ProjectErrorView;

    open spec fn deep_view(&self) -> ProjectErrorView {
        self@
    }
}

impl Duplicate for ProjectError {
    fn duplicate(&self) -> (r: Self) {
        match self {
            ProjectError::NotInGitRepository => ProjectError::NotInGitRepository,
            ProjectError::HomeDirectoryMissing => ProjectError::HomeDirectoryMissing,
            ProjectError::GitRootCanonicalize { path, message } => ProjectError::GitRootCanonicalize { path: path.duplicate(), message: message.duplicate() },
            ProjectError::CreateStateDir { path, message } => ProjectError::CreateStateDir { path: path.duplicate(), message: message.duplicate() },
            ProjectError::SourcePathRead { path, message } => ProjectError::SourcePathRead { path: path.duplicate(), message: message.duplicate() },
            ProjectError::SourcePathWrite { path, message } => ProjectError::SourcePathWrite { path: path.duplicate(), message: message.duplicate() },
            ProjectError::HashSlugCollision { path } => ProjectError::HashSlugCollision { path: path.duplicate() },
            ProjectError::GlobalConfig(inner) => ProjectError::GlobalConfig(inner.duplicate()),
        }
    }
}

impl Clone for ProjectError {
    fn clone(&self) -> (r: Self)
        ensures
            r@ == self@,
    {
        self.duplicate()
    }
}

impl ProjectErrorView {
    /// The text shown for the error.
    pub open spec fn message(self) -> Seq<char> {
        match self {
            ProjectErrorView::NotInGitRepository => "not inside a git repository"@,
            ProjectErrorView::HomeDirectoryMissing => "home directory missing"@,
            ProjectErrorView::GitRootCanonicalize { path, .. } => "failed to canonicalize git root "@ + path,
            ProjectErrorView::CreateStateDir { path, .. } => "failed to create state directory "@ + path,
            ProjectErrorView::SourcePathRead { path, .. } => "failed to read source path "@ + path,
            ProjectErrorView::SourcePathWrite { path, .. } => "failed to write source path "@ + path,
            ProjectErrorView::HashSlugCollision { path } => "hashed slug collision at "@ + path,
            ProjectErrorView::GlobalConfig(inner) => inner.message(),
        }
    }
}

impl ProjectError {
    /// The text shown for the error.
    pub fn message(&self) -> (r: String)
        ensures
            r@ == self@.message(),
    {
        match self {
            ProjectError::NotInGitRepository => "not inside a git repository".to_owned(),
            ProjectError::HomeDirectoryMissing => "home directory missing".to_owned(),
            ProjectError::GitRootCanonicalize { path, .. } => {
                let mut out = "failed to canonicalize git root ".to_owned();
                out.push_str(path.as_str());
                out
            },
            ProjectError::CreateStateDir { path, .. } => {
                let mut out = "failed to create state directory ".to_owned();
                out.push_str(path.as_str());
                out
            },
            ProjectError::SourcePathRead { path, .. } => {
                let mut out = "failed to read source path ".to_owned();
                out.push_str(path.as_str());
                out
            },
            ProjectError::SourcePathWrite { path, .. } => {
                let mut out = "failed to write source path ".to_owned();
                out.push_str(path.as_str());
                out
            },
            ProjectError::HashSlugCollision { path } => {
                let mut out = "hashed slug collision at ".to_owned();
                out.push_str(path.as_str());
                out
            },
            ProjectError::GlobalConfig(inner) => inner.message(),
        }
    }
}


/// A directory above the working directory, or that directory itself.
#[derive(Debug, PartialEq, Eq)]
pub struct Ancestor {
    pub path: String,
    /// Whether it holds an entry `.git`.
    pub has_git: bool,
}

/// The contents of a `Ancestor`.
#[verifier::ext_equal]
pub struct AncestorView {
    pub path: Seq<char>,
    pub has_git: bool,
}

impl View for Ancestor {
    type V = AncestorView;

    open spec fn view(&self) -> AncestorView {
        AncestorView {
            path: self.path@,
            has_git: self.has_git,
        }
    }
}

impl DeepView for Ancestor {
    type V = AncestorView;

    open spec fn deep_view(&self) -> AncestorView {
        self@
    }
}

impl Duplicate for Ancestor {
    fn duplicate(&self) -> (r: Self) {
        Ancestor {
            path: self.path.duplicate(),
            has_git: self.has_git,
        }
    }
}

impl Clone for Ancestor {
    fn clone(&self) -> (r: Self)
        ensures
            r@ == self@,
    {
        self.duplicate()
    }
}


/// What was found where the state of a project may be kept.
#[derive(Debug, PartialEq, Eq)]
pub enum CandidateSeen {
    /// Nothing.
    Missing,
    /// Something that is no directory.
    NotDirectory,
    /// It could not be looked at.
    Unreadable { message: String },
    /// A directory that names the repository it belongs to.
    Owned { source_path: String },
    /// A directory that names a repository, but the name could not be read.
    SourceUnreadable { message: String },
    /// A directory that names no repository.
    Unowned { empty: bool },
    /// A directory that names no repository and could not be looked into.
    UnownedUnreadable { message: String },
}

/// The contents of a `CandidateSeen`.
#[verifier::ext_equal]
pub enum CandidateSeenView {
    Missing,
    NotDirectory,
    Unreadable { message: Seq<char> },
    Owned { source_path: Seq<char> },
    SourceUnreadable { message: Seq<char> },
    Unowned { empty: bool },
    UnownedUnreadable { message: Seq<char> },
}

impl View for CandidateSeen {
    type V = CandidateSeenView;

    open spec fn view(&self) -> CandidateSeenView {
        match self {
            CandidateSeen::Missing => CandidateSeenView::Missing,
            CandidateSeen::NotDirectory => CandidateSeenView::NotDirectory,
            CandidateSeen::Unreadable { message } => CandidateSeenView::Unreadable { message: message@ },
            CandidateSeen::Owned { source_path } => CandidateSeenView::Owned { source_path: source_path@ },
            CandidateSeen::SourceUnreadable { message } => CandidateSeenView::SourceUnreadable { message: message@ },
            CandidateSeen::Unowned { empty } => CandidateSeenView::Unowned { empty: *empty },
            CandidateSeen::UnownedUnreadable { message } => CandidateSeenView::UnownedUnreadable { message: message@ },
        }
    }
}

impl DeepView for CandidateSeen {
    type V = CandidateSeenView;

    open spec fn deep_view(&self) -> CandidateSeenView {
        self@
    }
}

impl Duplicate for CandidateSeen {
    fn duplicate(&self) -> (r: Self) {
        match self {
            CandidateSeen::Missing => CandidateSeen::Missing,
            CandidateSeen::NotDirectory => CandidateSeen::NotDirectory,
            CandidateSeen::Unreadable { message } => CandidateSeen::Unreadable { message: message.duplicate() },
            CandidateSeen::Owned { source_path } => CandidateSeen::Owned { source_path: source_path.duplicate() },
            CandidateSeen::SourceUnreadable { message } => CandidateSeen::SourceUnreadable { message: message.duplicate() },
            CandidateSeen::Unowned { empty } => CandidateSeen::Unowned { empty: *empty },
            CandidateSeen::UnownedUnreadable { message } => CandidateSeen::UnownedUnreadable { message: message.duplicate() },
        }
    }
}

impl Clone for CandidateSeen {
    fn clone(&self) -> (r: Self)
        ensures
            r@ == self@,
    {
        self.duplicate()
    }
}


/// What is done with a directory in which the state of a project may be kept.
#[derive(Debug, Clone, Copy, PartialEq, Eq, Structural)]
pub enum CandidateResolution {
    /// It is made, and named as the project's.
    Create,
    /// It is there and empty, and named as the project's.
    Claim,
    /// It is the project's.
    Use,
    /// It is another project's.
    Collision,
}


impl DeepView for CandidateResolution {
    type V = CandidateResolution;

    open spec fn deep_view(&self) -> CandidateResolution {
        *self
    }
}

/// Where the state of a project is kept.
#[derive(Debug, PartialEq, Eq)]
pub struct Placement {
    pub slug: String,
    pub state_dir: String,
    pub resolution: CandidateResolution,
}

/// The contents of a `Placement`.
#[verifier::ext_equal]
pub struct PlacementView {
    pub slug: Seq<char>,
    pub state_dir: Seq<char>,
    pub resolution: CandidateResolution,
}

impl View for Placement {
    type V = PlacementView;

    open spec fn view(&self) -> PlacementView {
        PlacementView {
            slug: self.slug@,
            state_dir: self.state_dir@,
            resolution: self.resolution,
        }
    }
}

impl DeepView for Placement {
    type V = PlacementView;

    open spec fn deep_view(&self) -> PlacementView {
        self@
    }
}

impl Duplicate for Placement {
    fn duplicate(&self) -> (r: Self) {
        Placement {
            slug: self.slug.duplicate(),
            state_dir: self.state_dir.duplicate(),
            resolution: self.resolution,
        }
    }
}

impl Clone for Placement {
    fn clone(&self) -> (r: Self)
        ensures
            r@ == self@,
    {
        self.duplicate()
    }
}


/// A directory that holds an entry `.git`.
pub open spec fn holds_git() -> spec_fn(AncestorView) -> bool {
    |a: AncestorView| a.has_git
}

/// The nearest directory that holds an entry `.git`.
pub fn find_git_root(ancestors: &[Ancestor]) -> (r: Result<String, ProjectError>)
    ensures
        outcome(r) == match first_where(ancestors.deep_view(), holds_git()) {
            Some(i) => Ok::<Seq<char>, ProjectErrorView>(ancestors.deep_view()[i].path),
            None => Err(ProjectErrorView::NotInGitRepository),
        },
{
    let ghost all = ancestors.deep_view();
    let mut i: usize = 0;
    while i < ancestors.len()
        invariant
            i <= ancestors.len(),
            all == ancestors.deep_view(),
            forall|j: int| 0 <= j < i ==> !holds_git()(#[trigger] all[j]),
        decreases ancestors.len() - i,
    {
        assert(all[i as int] == ancestors@[i as int]@);
        if ancestors[i].has_git {
            proof {
                assert(is_first(all, holds_git(), i as int));
                lemma_first_is(all, holds_git(), i as int);
            }
            return Ok(ancestors[i].path.clone());
        }
        i = i + 1;
    }
    proof {
        lemma_first_none(all, holds_git());
    }
    Err(ProjectError::NotInGitRepository)
}

/// The last name in a canonical path.
pub open spec fn base_name(path: Seq<char>) -> Seq<char> {
    match after_last(path, '/') {
        Some(name) => name,
        None => path,
    }
}

/// The last name in a canonical path.
pub fn git_root_basename(git_root: &str) -> (r: String)
    ensures
        r@ == base_name(git_root@),
{
    match after_last_str(git_root, '/') {
        Some(name) => name,
        None => git_root.to_owned(),
    }
}

/// A capital letter of ASCII.
pub open spec fn is_capital(c: char) -> bool {
    65 <= c as u32 <= 90
}

/// A small letter of ASCII.
pub open spec fn is_small(c: char) -> bool {
    97 <= c as u32 <= 122
}

/// A character as a slug holds it: letters and digits of ASCII in lower case, and a hyphen for
/// anything else.
pub open spec fn slug_char(c: char) -> char {
    if is_digit(c) || is_small(c) {
        c
    } else if is_capital(c) {
        (c as u32 + 32) as char
    } else {
        '-'
    }
}

/// The name of a project's directory, made of the name of its repository.
pub open spec fn slug_of(name: Seq<char>) -> Seq<char> {
    Seq::new(name.len(), |i: int| slug_char(name[i]))
}

fn to_slug_char(c: char) -> (r: char)
    ensures
        r == slug_char(c),
{
    let u: u32 = c as u32;
    if (48 <= u && u <= 57) || (97 <= u && u <= 122) {
        c
    } else if 65 <= u && u <= 90 {
        ((u + 32) as u8) as char
    } else {
        '-'
    }
}

/// The name of a project's directory, made of the name of its repository.
pub fn slugify(name: &str) -> (r: String)
    ensures
        r@ == slug_of(name@),
{
    let x: Vec<char> = to_chars(name);
    let ghost all = slug_of(name@);
    let mut out = String::new();
    let mut i: usize = 0;
    while i < x.len()
        invariant
            i <= x.len(),
            x@ == name@,
            all == slug_of(name@),
            out@ == all.take(i as int),
        decreases x.len() - i,
    {
        out.push(to_slug_char(x[i]));
        assert(all.take(i + 1) =~= all.take(i as int).push(all[i as int]));
        i = i + 1;
    }
    assert(all.take(i as int) =~= all);
    out
}

/// A digit of a number in hexadecimal, in lower case.
pub open spec fn is_hex(c: char) -> bool {
    is_digit(c) || 97 <= c as u32 <= 102
}

/// What `sha2::Sha256::digest` gives for the UTF-8 bytes of a text, in hexadecimal.
pub uninterp spec fn sha256_hex(s: Seq<char>) -> Seq<char>;

/// `sha2::Sha256::digest` on the UTF-8 bytes of a text, written in hexadecimal: the digest is
/// determined by the text, and has two digits in lower case for each of its thirty-two bytes.
#[verifier::external_body]
pub(crate) fn sha256(s: &str) -> (r: String)
    ensures
        r@ == sha256_hex(s@),
        r@.len() == 64,
        forall|i: int| 0 <= i < 64 ==> is_hex(#[trigger] r@[i]),
{
    format!("{:x}", <sha2::Sha256 as sha2::Digest>::digest(s.as_bytes()))
}

/// What is appended to the slug of a project whose name is taken.
pub fn hash_suffix(git_root: &str) -> (r: String)
    ensures
        r@ == sha256_hex(git_root@).take(6),
        r@.len() == 6,
        forall|i: int| 0 <= i < 6 ==> is_hex(#[trigger] r@[i]),
{
    let digest = sha256(git_root);
    let x: Vec<char> = to_chars(digest.as_str());
    let r = from_chars(&x, 0, 6);
    assert(r@ =~= digest@.take(6));
    r
}

/// What a project's directory says about the repository it belongs to.
pub open spec fn ownership(git_root: Seq<char>) -> Seq<char> {
    git_root + "\n"@
}

/// What a project's directory says about the repository it belongs to.
pub fn source_path_content(git_root: &str) -> (r: String)
    ensures
        r@ == ownership(git_root@),
{
    let mut out = git_root.to_owned();
    out.push_str("\n");
    out
}

/// What is done with a directory for the state of a project.
pub open spec fn resolution_of(state_dir: Seq<char>, seen: CandidateSeenView, content: Seq<char>) -> Result<
    CandidateResolution,
    ProjectErrorView,
> {
    match seen {
        CandidateSeenView::Missing => Ok(CandidateResolution::Create),
        CandidateSeenView::NotDirectory => Err(
            ProjectErrorView::CreateStateDir {
                path: state_dir,
                message: "state path exists and is not a directory"@,
            },
        ),
        CandidateSeenView::Unreadable { message } => Err(
            ProjectErrorView::CreateStateDir { path: state_dir, message },
        ),
        CandidateSeenView::Owned { source_path } => Ok(
            if source_path == content {
                CandidateResolution::Use
            } else {
                CandidateResolution::Collision
            },
        ),
        CandidateSeenView::SourceUnreadable { message } => Err(
            ProjectErrorView::SourcePathRead {
                path: path_join(state_dir, ".source_path"@),
                message,
            },
        ),
        CandidateSeenView::Unowned { empty } => Ok(
            if empty {
                CandidateResolution::Claim
            } else {
                CandidateResolution::Collision
            },
        ),
        CandidateSeenView::UnownedUnreadable { message } => Err(
            ProjectErrorView::CreateStateDir { path: state_dir, message },
        ),
    }
}

/// What is done with a directory for the state of a project.
pub fn prepare_candidate(state_dir: &str, seen: CandidateSeen, source_path_content: &str) -> (r: Result<
    CandidateResolution,
    ProjectError,
>)
    ensures
        outcome(r) == resolution_of(state_dir@, seen@, source_path_content@),
{
    match seen {
        CandidateSeen::Missing => Ok(CandidateResolution::Create),
        CandidateSeen::NotDirectory => Err(
            ProjectError::CreateStateDir {
                path: state_dir.to_owned(),
                message: "state path exists and is not a directory".to_owned(),
            },
        ),
        CandidateSeen::Unreadable { message } => Err(
            ProjectError::CreateStateDir { path: state_dir.to_owned(), message },
        ),
        CandidateSeen::Owned { source_path } => Ok(
            if str_eq(source_path.as_str(), source_path_content) {
                CandidateResolution::Use
            } else {
                CandidateResolution::Collision
            },
        ),
        CandidateSeen::SourceUnreadable { message } => Err(
            ProjectError::SourcePathRead { path: join_path(state_dir, ".source_path"), message },
        ),
        CandidateSeen::Unowned { empty } => Ok(
            if empty {
                CandidateResolution::Claim
            } else {
                CandidateResolution::Collision
            },
        ),
        CandidateSeen::UnownedUnreadable { message } => Err(
            ProjectError::CreateStateDir { path: state_dir.to_owned(), message },
        ),
    }
}

/// The slug of a project whose name is taken.
pub open spec fn hashed_slug(git_root: Seq<char>) -> Seq<char> {
    slug_of(base_name(git_root)) + "-"@ + sha256_hex(git_root).take(6)
}

/// The slug of a project whose name is taken.
pub fn fallback_slug(git_root: &str) -> (r: String)
    ensures
        r@ == hashed_slug(git_root@),
{
    let mut out = slugify(git_root_basename(git_root).as_str());
    out.push_str("-");
    out.push_str(hash_suffix(git_root).as_str());
    out
}

/// Where the state of a project is kept: under the name of its repository or, where another
/// project is kept there, under that name with a part of the digest of its path.
pub open spec fn placed(
    git_root: Seq<char>,
    agira_root: Seq<char>,
    base: CandidateSeenView,
    hashed: CandidateSeenView,
) -> Result<PlacementView, ProjectErrorView> {
    let content = ownership(git_root);
    let slug = slug_of(base_name(git_root));
    match resolution_of(path_join(agira_root, slug), base, content) {
        Err(e) => Err(e),
        Ok(CandidateResolution::Collision) => {
            let state_dir = path_join(agira_root, hashed_slug(git_root));
            match resolution_of(state_dir, hashed, content) {
                Err(e) => Err(e),
                Ok(CandidateResolution::Collision) => Err(
                    ProjectErrorView::HashSlugCollision { path: state_dir },
                ),
                Ok(resolution) => Ok(
                    PlacementView { slug: hashed_slug(git_root), state_dir, resolution },
                ),
            }
        },
        Ok(resolution) => Ok(
            PlacementView { slug, state_dir: path_join(agira_root, slug), resolution },
        ),
    }
}

/// Where the state of a project is kept, given what was found at the two places where it may be.
pub fn resolve_project_from(
    git_root: &str,
    agira_root: &str,
    base: CandidateSeen,
    hashed: CandidateSeen,
) -> (r: Result<Placement, ProjectError>)
    ensures
        outcome(r) == placed(git_root@, agira_root@, base@, hashed@),
{
    let content = source_path_content(git_root);
    let slug = slugify(git_root_basename(git_root).as_str());
    let state_dir = join_path(agira_root, slug.as_str());
    match prepare_candidate(state_dir.as_str(), base, content.as_str()) {
        Err(e) => Err(e),
        Ok(CandidateResolution::Collision) => {
            let slug = fallback_slug(git_root);
            let state_dir = join_path(agira_root, slug.as_str());
            match prepare_candidate(state_dir.as_str(), hashed, content.as_str()) {
                Err(e) => Err(e),
                Ok(CandidateResolution::Collision) => Err(
                    ProjectError::HashSlugCollision { path: state_dir },
                ),
                Ok(resolution) => Ok(Placement { slug, state_dir, resolution }),
            }
        },
        Ok(resolution) => Ok(Placement { slug, state_dir, resolution }),
    }
}

/// A directory that belongs to another repository is never used: the directory of a project is
/// either new, or empty and claimed, or names the project's repository.
pub proof fn law_state_dir_is_own(
    git_root: Seq<char>,
    agira_root: Seq<char>,
    base: CandidateSeenView,
    hashed: CandidateSeenView,
)
    ensures
        placed(git_root, agira_root, base, hashed) matches Ok(p) ==> {
            let seen = if p.slug == slug_of(base_name(git_root)) && resolution_of(
                p.state_dir,
                base,
                ownership(git_root),
            ) != Ok::<CandidateResolution, ProjectErrorView>(CandidateResolution::Collision) {
                base
            } else {
                hashed
            };
            match p.resolution {
                CandidateResolution::Create => seen is Missing,
                CandidateResolution::Claim => seen == CandidateSeenView::Unowned { empty: true },
                CandidateResolution::Use => seen == (CandidateSeenView::Owned {
                    source_path: ownership(git_root),
                }),
                CandidateResolution::Collision => false,
            }
        },
{
}

/// Two repositories are told apart by what their directories say of them.
pub proof fn law_ownership_is_injective(a: Seq<char>, b: Seq<char>)
    requires
        ownership(a) == ownership(b),
    ensures
        a == b,
{
    reveal_strlit("\n");
    assert(ownership(a).drop_last() =~= a);
    assert(ownership(b).drop_last() =~= b);
}

/// A project keeps its place: once its directory names its repository, it is used again.
pub proof fn law_placement_is_stable(git_root: Seq<char>, agira_root: Seq<char>, hashed: CandidateSeenView)
    ensures
        placed(
            git_root,
            agira_root,
            CandidateSeenView::Owned { source_path: ownership(git_root) },
            hashed,
        ) == Ok::<PlacementView, ProjectErrorView>(
            PlacementView {
                slug: slug_of(base_name(git_root)),
                state_dir: path_join(agira_root, slug_of(base_name(git_root))),
                resolution: CandidateResolution::Use,
            },
        ),
{
}

/// A slug is made of small letters, digits and hyphens.
pub proof fn law_slug_is_plain(name: Seq<char>)
    ensures
        slug_of(name).len() == name.len(),
        forall|i: int|
            0 <= i < name.len() ==> {
                let c = #[trigger] slug_of(name)[i];
                is_digit(c) || is_small(c) || c == '-'
            },
{
}

/// Making a slug of a slug changes nothing.
pub proof fn law_slug_of_slug(name: Seq<char>)
    ensures
        slug_of(slug_of(name)) == slug_of(name),
{
    law_slug_is_plain(name);
    assert(slug_of(slug_of(name)) =~= slug_of(name));
}

} // verus!

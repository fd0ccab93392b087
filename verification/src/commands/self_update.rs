//! Replacing the program by its latest release.

use vstd::prelude::*;

use crate::commands::workflow::put_between;
use crate::duplicate::{outcome, Duplicate};
use crate::text::{
    after_prefix, decimal, decimal_str, decimal_wide_str, first_where, follow, is_first, join_path,
    lemma_first_is, lemma_first_none, path_join, repeat_char, repeated, str_eq, strip_prefix,
};

verus! {

/// Where the latest release is described.
pub const LATEST_RELEASE_URL: &'static str =
    "https://api.github.com/repos/siwei-lu/agira/releases/latest";

/// The bytes that are read at once.
pub const DOWNLOAD_BUFFER_SIZE: usize = 8192;

/// The signs of a progress bar.
pub const PROGRESS_BAR_WIDTH: usize = 20;

/// The progress bar where it is not known how much there is to download.
pub const UNKNOWN_TOTAL_BAR: &'static str = "????????????????????";

/// Why the program could not be replaced.
#[derive(Debug, PartialEq, Eq)]
pub enum SelfUpdateError {
    UnsupportedPlatform { os: String, arch: String },
    AssetNotFound { os: String, arch: String, tag: String },
    HttpClient { message: String },
    FetchLatest { message: String },
    ParseLatest { message: String },
    DownloadAsset { message: String },
    CurrentExe { message: String },
    MissingExeParent { path: String },
    CreateTemp { path: String, message: String },
    WriteTemp { path: String, message: String },
    WriteProgress { message: String },
    SetPermissions { path: String, message: String },
    ReplaceCurrentExe { path: String, message: String },
}

/// The contents of a `SelfUpdateError`.
#[verifier::ext_equal]
pub enum SelfUpdateErrorView {
    UnsupportedPlatform { os: Seq<char>, arch: Seq<char> },
    AssetNotFound { os: Seq<char>, arch: Seq<char>, tag: Seq<char> },
    HttpClient { message: Seq<char> },
    FetchLatest { message: Seq<char> },
    ParseLatest { message: Seq<char> },
    DownloadAsset { message: Seq<char> },
    CurrentExe { message: Seq<char> },
    MissingExeParent { path: Seq<char> },
    CreateTemp { path: Seq<char>, message: Seq<char> },
    WriteTemp { path: Seq<char>, message: Seq<char> },
    WriteProgress { message: Seq<char> },
    SetPermissions { path: Seq<char>, message: Seq<char> },
    ReplaceCurrentExe { path: Seq<char>, message: Seq<char> },
}

impl View for SelfUpdateError {
    type V = SelfUpdateErrorView;

    open spec fn view(&self) -> SelfUpdateErrorView {
        match self {
            SelfUpdateError::UnsupportedPlatform { os, arch } => SelfUpdateErrorView::UnsupportedPlatform { os: os@, arch: arch@ },
            SelfUpdateError::AssetNotFound { os, arch, tag } => SelfUpdateErrorView::AssetNotFound { os: os@, arch: arch@, tag: tag@ },
            SelfUpdateError::HttpClient { message } => SelfUpdateErrorView::HttpClient { message: message@ },
            SelfUpdateError::FetchLatest { message } => SelfUpdateErrorView::FetchLatest { message: message@ },
            SelfUpdateError::ParseLatest { message } => SelfUpdateErrorView::ParseLatest { message: message@ },
            SelfUpdateError::DownloadAsset { message } => SelfUpdateErrorView::DownloadAsset { message: message@ },
            SelfUpdateError::CurrentExe { message } => SelfUpdateErrorView::CurrentExe { message: message@ },
            SelfUpdateError::MissingExeParent { path } => SelfUpdateErrorView::MissingExeParent { path: path@ },
            SelfUpdateError::CreateTemp { path, message } => SelfUpdateErrorView::CreateTemp { path: path@, message: message@ },
            SelfUpdateError::WriteTemp { path, message } => SelfUpdateErrorView::WriteTemp { path: path@, message: message@ },
            SelfUpdateError::WriteProgress { message } => SelfUpdateErrorView::WriteProgress { message: message@ },
            SelfUpdateError::SetPermissions { path, message } => SelfUpdateErrorView::SetPermissions { path: path@, message: message@ },
            SelfUpdateError::ReplaceCurrentExe { path, message } => SelfUpdateErrorView::ReplaceCurrentExe { path: path@, message: message@ },
        }
    }
}

impl DeepView for SelfUpdateError {
    type V = SelfUpdateErrorView;

    open spec fn deep_view(&self) -> SelfUpdateErrorView {
        self@
    }
}

impl Duplicate for SelfUpdateError {
    fn duplicate(&self) -> (r: Self) {
        match self {
            SelfUpdateError::UnsupportedPlatform { os, arch } => SelfUpdateError::UnsupportedPlatform { os: os.duplicate(), arch: arch.duplicate() },
            SelfUpdateError::AssetNotFound { os, arch, tag } => SelfUpdateError::AssetNotFound { os: os.duplicate(), arch: arch.duplicate(), tag: tag.duplicate() },
            SelfUpdateError::HttpClient { message } => SelfUpdateError::HttpClient { message: message.duplicate() },
            SelfUpdateError::FetchLatest { message } => SelfUpdateError::FetchLatest { message: message.duplicate() },
            SelfUpdateError::ParseLatest { message } => SelfUpdateError::ParseLatest { message: message.duplicate() },
            SelfUpdateError::DownloadAsset { message } => SelfUpdateError::DownloadAsset { message: message.duplicate() },
            SelfUpdateError::CurrentExe { message } => SelfUpdateError::CurrentExe { message: message.duplicate() },
            SelfUpdateError::MissingExeParent { path } => SelfUpdateError::MissingExeParent { path: path.duplicate() },
            SelfUpdateError::CreateTemp { path, message } => SelfUpdateError::CreateTemp { path: path.duplicate(), message: message.duplicate() },
            SelfUpdateError::WriteTemp { path, message } => SelfUpdateError::WriteTemp { path: path.duplicate(), message: message.duplicate() },
            SelfUpdateError::WriteProgress { message } => SelfUpdateError::WriteProgress { message: message.duplicate() },
            SelfUpdateError::SetPermissions { path, message } => SelfUpdateError::SetPermissions { path: path.duplicate(), message: message.duplicate() },
            SelfUpdateError::ReplaceCurrentExe { path, message } => SelfUpdateError::ReplaceCurrentExe { path: path.duplicate(), message: message.duplicate() },
        }
    }
}

impl Clone for SelfUpdateError {
    fn clone(&self) -> (r: Self)
        ensures
            r@ == self@,
    {
        self.duplicate()
    }
}

impl SelfUpdateErrorView {
    /// The text shown for the error.
    pub open spec fn message(self) -> Seq<char> {
        match self {
            SelfUpdateErrorView::UnsupportedPlatform { os, arch } => "unsupported platform: "@ + os + "/"@ + arch,
            SelfUpdateErrorView::AssetNotFound { os, arch, tag } => "no asset found for "@ + os + "/"@ + arch + " in release "@ + tag,
            SelfUpdateErrorView::HttpClient { message } => "failed to build http client: "@ + message,
            SelfUpdateErrorView::FetchLatest { message } => "failed to fetch latest release: "@ + message,
            SelfUpdateErrorView::ParseLatest { message } => "failed to parse latest release: "@ + message,
            SelfUpdateErrorView::DownloadAsset { message } => "failed to download asset: "@ + message,
            SelfUpdateErrorView::CurrentExe { message } => "failed to find current executable: "@ + message,
            SelfUpdateErrorView::MissingExeParent { path } => "current executable has no parent directory: "@ + path,
            SelfUpdateErrorView::CreateTemp { path, message } => "failed to create temporary file "@ + path + ": "@ + message,
            SelfUpdateErrorView::WriteTemp { path, message } => "failed to write temporary file "@ + path + ": "@ + message,
            SelfUpdateErrorView::WriteProgress { message } => "failed to write download progress: "@ + message,
            SelfUpdateErrorView::SetPermissions { path, message } => "failed to set executable permissions on "@ + path + ": "@ + message,
            SelfUpdateErrorView::ReplaceCurrentExe { path, message } => "failed to replace current executable "@ + path + ": "@ + message,
        }
    }
}

impl SelfUpdateError {
    /// The text shown for the error.
    pub fn message(&self) -> (r: String)
        ensures
            r@ == self@.message(),
    {
        match self {
            SelfUpdateError::UnsupportedPlatform { os, arch } => {
                let mut out = "unsupported platform: ".to_owned();
                out.push_str(os.as_str());
                out.push_str("/");
                out.push_str(arch.as_str());
                out
            },
            SelfUpdateError::AssetNotFound { os, arch, tag } => {
                let mut out = "no asset found for ".to_owned();
                out.push_str(os.as_str());
                out.push_str("/");
                out.push_str(arch.as_str());
                out.push_str(" in release ");
                out.push_str(tag.as_str());
                out
            },
            SelfUpdateError::HttpClient { message } => {
                let mut out = "failed to build http client: ".to_owned();
                out.push_str(message.as_str());
                out
            },
            SelfUpdateError::FetchLatest { message } => {
                let mut out = "failed to fetch latest release: ".to_owned();
                out.push_str(message.as_str());
                out
            },
            SelfUpdateError::ParseLatest { message } => {
                let mut out = "failed to parse latest release: ".to_owned();
                out.push_str(message.as_str());
                out
            },
            SelfUpdateError::DownloadAsset { message } => {
                let mut out = "failed to download asset: ".to_owned();
                out.push_str(message.as_str());
                out
            },
            SelfUpdateError::CurrentExe { message } => {
                let mut out = "failed to find current executable: ".to_owned();
                out.push_str(message.as_str());
                out
            },
            SelfUpdateError::MissingExeParent { path } => {
                let mut out = "current executable has no parent directory: ".to_owned();
                out.push_str(path.as_str());
                out
            },
            SelfUpdateError::CreateTemp { path, message } => {
                let mut out = "failed to create temporary file ".to_owned();
                out.push_str(path.as_str());
                out.push_str(": ");
                out.push_str(message.as_str());
                out
            },
            SelfUpdateError::WriteTemp { path, message } => {
                let mut out = "failed to write temporary file ".to_owned();
                out.push_str(path.as_str());
                out.push_str(": ");
                out.push_str(message.as_str());
                out
            },
            SelfUpdateError::WriteProgress { message } => {
                let mut out = "failed to write download progress: ".to_owned();
                out.push_str(message.as_str());
                out
            },
            SelfUpdateError::SetPermissions { path, message } => {
                let mut out = "failed to set executable permissions on ".to_owned();
                out.push_str(path.as_str());
                out.push_str(": ");
                out.push_str(message.as_str());
                out
            },
            SelfUpdateError::ReplaceCurrentExe { path, message } => {
                let mut out = "failed to replace current executable ".to_owned();
                out.push_str(path.as_str());
                out.push_str(": ");
                out.push_str(message.as_str());
                out
            },
        }
    }
}


/// A file of a release.
#[derive(Debug, PartialEq, Eq)]
pub struct GithubAsset {
    pub name: String,
    pub browser_download_url: String,
}

/// The contents of a `GithubAsset`.
#[verifier::ext_equal]
pub struct GithubAssetView {
    pub name: Seq<char>,
    pub browser_download_url: Seq<char>,
}

impl View for GithubAsset {
    type V = GithubAssetView;

    open spec fn view(&self) -> GithubAssetView {
        GithubAssetView {
            name: self.name@,
            browser_download_url: self.browser_download_url@,
        }
    }
}

impl DeepView for GithubAsset {
    type V = GithubAssetView;

    open spec fn deep_view(&self) -> GithubAssetView {
        self@
    }
}

impl Duplicate for GithubAsset {
    fn duplicate(&self) -> (r: Self) {
        GithubAsset {
            name: self.name.duplicate(),
            browser_download_url: self.browser_download_url.duplicate(),
        }
    }
}

impl Clone for GithubAsset {
    fn clone(&self) -> (r: Self)
        ensures
            r@ == self@,
    {
        self.duplicate()
    }
}


/// A release.
#[derive(Debug, PartialEq, Eq)]
pub struct GithubRelease {
    pub tag_name: String,
    pub assets: Vec<GithubAsset>,
}

/// The contents of a `GithubRelease`.
#[verifier::ext_equal]
pub struct GithubReleaseView {
    pub tag_name: Seq<char>,
    pub assets: Seq<GithubAssetView>,
}

impl View for GithubRelease {
    type V = GithubReleaseView;

    open spec fn view(&self) -> GithubReleaseView {
        GithubReleaseView {
            tag_name: self.tag_name@,
            assets: self.assets.deep_view(),
        }
    }
}

impl DeepView for GithubRelease {
    type V = GithubReleaseView;

    open spec fn deep_view(&self) -> GithubReleaseView {
        self@
    }
}

impl Duplicate for GithubRelease {
    fn duplicate(&self) -> (r: Self) {
        GithubRelease {
            tag_name: self.tag_name.duplicate(),
            assets: self.assets.duplicate(),
        }
    }
}

impl Clone for GithubRelease {
    fn clone(&self) -> (r: Self)
        ensures
            r@ == self@,
    {
        self.duplicate()
    }
}


/// What asking for the latest release gave.
#[derive(Debug, PartialEq, Eq)]
pub enum ReleaseSeen {
    /// There is nothing to ask with.
    NoClient { message: String },
    /// There was no answer.
    Unfetched { message: String },
    /// The answer describes no release.
    Malformed { message: String },
    Release { release: GithubRelease },
}

/// The contents of a `ReleaseSeen`.
#[verifier::ext_equal]
pub enum ReleaseSeenView {
    NoClient { message: Seq<char> },
    Unfetched { message: Seq<char> },
    Malformed { message: Seq<char> },
    Release { release: GithubReleaseView },
}

impl View for ReleaseSeen {
    type V = ReleaseSeenView;

    open spec fn view(&self) -> ReleaseSeenView {
        match self {
            ReleaseSeen::NoClient { message } => ReleaseSeenView::NoClient { message: message@ },
            ReleaseSeen::Unfetched { message } => ReleaseSeenView::Unfetched { message: message@ },
            ReleaseSeen::Malformed { message } => ReleaseSeenView::Malformed { message: message@ },
            ReleaseSeen::Release { release } => ReleaseSeenView::Release { release: release@ },
        }
    }
}

impl DeepView for ReleaseSeen {
    type V = ReleaseSeenView;

    open spec fn deep_view(&self) -> ReleaseSeenView {
        self@
    }
}

impl Duplicate for ReleaseSeen {
    fn duplicate(&self) -> (r: Self) {
        match self {
            ReleaseSeen::NoClient { message } => ReleaseSeen::NoClient { message: message.duplicate() },
            ReleaseSeen::Unfetched { message } => ReleaseSeen::Unfetched { message: message.duplicate() },
            ReleaseSeen::Malformed { message } => ReleaseSeen::Malformed { message: message.duplicate() },
            ReleaseSeen::Release { release } => ReleaseSeen::Release { release: release.duplicate() },
        }
    }
}

impl Clone for ReleaseSeen {
    fn clone(&self) -> (r: Self)
        ensures
            r@ == self@,
    {
        self.duplicate()
    }
}


/// What is left to be done to replace the program.
#[derive(Debug, PartialEq, Eq)]
pub enum UpdateStep {
    /// Nothing; the user is told.
    UpToDate { message: String },
    /// A file is put in its place, and then the user is told.
    Install { url: String, message: String },
}

/// The contents of a `UpdateStep`.
#[verifier::ext_equal]
pub enum UpdateStepView {
    UpToDate { message: Seq<char> },
    Install { url: Seq<char>, message: Seq<char> },
}

impl View for UpdateStep {
    type V = UpdateStepView;

    open spec fn view(&self) -> UpdateStepView {
        match self {
            UpdateStep::UpToDate { message } => UpdateStepView::UpToDate { message: message@ },
            UpdateStep::Install { url, message } => UpdateStepView::Install { url: url@, message: message@ },
        }
    }
}

impl DeepView for UpdateStep {
    type V = UpdateStepView;

    open spec fn deep_view(&self) -> UpdateStepView {
        self@
    }
}

impl Duplicate for UpdateStep {
    fn duplicate(&self) -> (r: Self) {
        match self {
            UpdateStep::UpToDate { message } => UpdateStep::UpToDate { message: message.duplicate() },
            UpdateStep::Install { url, message } => UpdateStep::Install { url: url.duplicate(), message: message.duplicate() },
        }
    }
}

impl Clone for UpdateStep {
    fn clone(&self) -> (r: Self)
        ensures
            r@ == self@,
    {
        self.duplicate()
    }
}


// ---------------------------------------------------------------------------------------------
// Which file to put in place
// ---------------------------------------------------------------------------------------------

/// The name of the file for a platform.
pub open spec fn platform_asset(os: Seq<char>, arch: Seq<char>) -> Result<Seq<char>, SelfUpdateErrorView> {
    if os == "macos"@ && arch == "aarch64"@ {
        Ok("agira-aarch64-apple-darwin"@)
    } else if os == "macos"@ && arch == "x86_64"@ {
        Ok("agira-x86_64-apple-darwin"@)
    } else if os == "linux"@ && arch == "x86_64"@ {
        Ok("agira-x86_64-unknown-linux-gnu"@)
    } else {
        Err(SelfUpdateErrorView::UnsupportedPlatform { os, arch })
    }
}

/// The name of the file for a platform.
pub fn platform_asset_name(os: &str, arch: &str) -> (r: Result<String, SelfUpdateError>)
    ensures
        outcome(r) == platform_asset(os@, arch@),
{
    if str_eq(os, "macos") && str_eq(arch, "aarch64") {
        Ok("agira-aarch64-apple-darwin".to_owned())
    } else if str_eq(os, "macos") && str_eq(arch, "x86_64") {
        Ok("agira-x86_64-apple-darwin".to_owned())
    } else if str_eq(os, "linux") && str_eq(arch, "x86_64") {
        Ok("agira-x86_64-unknown-linux-gnu".to_owned())
    } else {
        Err(SelfUpdateError::UnsupportedPlatform { os: os.to_owned(), arch: arch.to_owned() })
    }
}

/// The version that a tag names: the tag without a `v` in front.
pub open spec fn tag_version(tag: Seq<char>) -> Seq<char> {
    match after_prefix(tag, "v"@) {
        Some(version) => version,
        None => tag,
    }
}

/// The version that a tag names.
pub fn release_version(tag_name: &str) -> (r: &str)
    ensures
        r@ == tag_version(tag_name@),
{
    match strip_prefix(tag_name, "v") {
        Some(version) => version,
        None => tag_name,
    }
}

/// Whether a tag names the current version.
pub fn is_current_version(tag_name: &str, current_version: &str) -> (r: bool)
    ensures
        r == (tag_version(tag_name@) == current_version@),
{
    str_eq(release_version(tag_name), current_version)
}

/// The files with a name.
pub open spec fn named(name: Seq<char>) -> spec_fn(GithubAssetView) -> bool {
    |a: GithubAssetView| a.name == name
}

/// The first file of a release with a name.
pub open spec fn asset_named(release: GithubReleaseView, name: Seq<char>) -> Option<GithubAssetView> {
    match first_where(release.assets, named(name)) {
        Some(i) => Some(release.assets[i]),
        None => None,
    }
}

/// The first file of a release with a name.
pub fn find_asset<'a>(release: &'a GithubRelease, asset_name: &str) -> (r: Option<&'a GithubAsset>)
    ensures
        r.deep_view() == asset_named(release@, asset_name@),
{
    let ghost all = release@.assets;
    let ghost p = named(asset_name@);
    let mut i: usize = 0;
    while i < release.assets.len()
        invariant
            i <= release.assets.len(),
            all == release@.assets,
            p == named(asset_name@),
            forall|j: int| 0 <= j < i ==> !p(#[trigger] all[j]),
        decreases release.assets.len() - i,
    {
        assert(all[i as int] == release.assets@[i as int]@);
        if str_eq(release.assets[i].name.as_str(), asset_name) {
            proof {
                assert(is_first(all, p, i as int));
                lemma_first_is(all, p, i as int);
            }
            return Some(&release.assets[i]);
        }
        i = i + 1;
    }
    proof {
        lemma_first_none(all, p);
    }
    None
}

/// What is said where the program is the latest release.
pub fn already_up_to_date_message(version: &str) -> (r: String)
    ensures
        r@ == "agira is already up to date (v"@ + version@ + ")"@,
{
    put_between("agira is already up to date (v", version, ")")
}

/// What is said where the program was replaced.
pub fn updated_message(version: &str) -> (r: String)
    ensures
        r@ == "updated to v"@ + version@,
{
    follow("updated to v", version)
}

/// What is left to be done to replace the program on a platform.
pub open spec fn update_step(
    os: Seq<char>,
    arch: Seq<char>,
    seen: ReleaseSeenView,
    current_version: Seq<char>,
) -> Result<UpdateStepView, SelfUpdateErrorView> {
    match platform_asset(os, arch) {
        Err(e) => Err(e),
        Ok(name) => match seen {
            ReleaseSeenView::NoClient { message } => Err(SelfUpdateErrorView::HttpClient { message }),
            ReleaseSeenView::Unfetched { message } => Err(
                SelfUpdateErrorView::FetchLatest { message },
            ),
            ReleaseSeenView::Malformed { message } => Err(
                SelfUpdateErrorView::ParseLatest { message },
            ),
            ReleaseSeenView::Release { release } => {
                let version = tag_version(release.tag_name);
                if version == current_version {
                    Ok(
                        UpdateStepView::UpToDate {
                            message: "agira is already up to date (v"@ + version + ")"@,
                        },
                    )
                } else {
                    match asset_named(release, name) {
                        None => Err(
                            SelfUpdateErrorView::AssetNotFound { os, arch, tag: release.tag_name },
                        ),
                        Some(asset) => Ok(
                            UpdateStepView::Install {
                                url: asset.browser_download_url,
                                message: "updated to v"@ + version,
                            },
                        ),
                    }
                }
            },
        },
    }
}

/// What is left to be done to replace the program on a platform.
pub fn run_self_update(os: &str, arch: &str, seen: &ReleaseSeen, current_version: &str) -> (r: Result<
    UpdateStep,
    SelfUpdateError,
>)
    ensures
        outcome(r) == update_step(os@, arch@, seen@, current_version@),
{
    let name = match platform_asset_name(os, arch) {
        Err(e) => {
            return Err(e);
        },
        Ok(n) => n,
    };
    match seen {
        ReleaseSeen::NoClient { message } => Err(
            SelfUpdateError::HttpClient { message: message.clone() },
        ),
        ReleaseSeen::Unfetched { message } => Err(
            SelfUpdateError::FetchLatest { message: message.clone() },
        ),
        ReleaseSeen::Malformed { message } => Err(
            SelfUpdateError::ParseLatest { message: message.clone() },
        ),
        ReleaseSeen::Release { release } => {
            let version = release_version(release.tag_name.as_str());
            if is_current_version(release.tag_name.as_str(), current_version) {
                return Ok(UpdateStep::UpToDate { message: already_up_to_date_message(version) });
            }
            match find_asset(release, name.as_str()) {
                None => Err(
                    SelfUpdateError::AssetNotFound {
                        os: os.to_owned(),
                        arch: arch.to_owned(),
                        tag: release.tag_name.clone(),
                    },
                ),
                Some(asset) => Ok(
                    UpdateStep::Install {
                        url: asset.browser_download_url.clone(),
                        message: updated_message(version),
                    },
                ),
            }
        },
    }
}

/// Where a file is kept while it is downloaded: beside the program, under a name made of the number
/// of the process and a point in time. The directory of the program is given.
pub fn temp_download_path(current_exe: &str, parent: Option<&str>, process: u32, nanos: u128) -> (r:
    Result<String, SelfUpdateError>)
    ensures
        outcome(r) == match parent.deep_view() {
            None => Err(SelfUpdateErrorView::MissingExeParent { path: current_exe@ }),
            Some(directory) => Ok(
                path_join(
                    directory,
                    "agira-update-"@ + decimal(process as nat) + "-"@ + decimal(nanos as nat)
                        + ".tmp"@,
                ),
            ),
        },
{
    match parent {
        None => Err(SelfUpdateError::MissingExeParent { path: current_exe.to_owned() }),
        Some(directory) => {
            let mut name = follow("agira-update-", decimal_str(process as u64).as_str());
            name.push_str("-");
            name.push_str(decimal_wide_str(nanos).as_str());
            name.push_str(".tmp");
            Ok(join_path(directory, name.as_str()))
        },
    }
}

// ---------------------------------------------------------------------------------------------
// The progress of a download
// ---------------------------------------------------------------------------------------------

/// A part of a whole, in so many steps; all of them where there is nothing.
pub open spec fn part_of(part: nat, whole: nat, steps: nat) -> nat {
    if whole == 0 || part >= whole {
        steps
    } else {
        part * steps / whole
    }
}

proof fn lemma_part_of(part: nat, whole: nat, steps: nat)
    requires
        whole > 0,
    ensures
        part >= whole ==> part * steps / whole >= steps,
        part < whole ==> part * steps / whole <= steps,
{
    let scaled = part * steps;
    let q = scaled / whole;
    vstd::arithmetic::div_mod::lemma_fundamental_div_mod(scaled as int, whole as int);
    assert(scaled == whole * q + scaled % whole);
    if part >= whole {
        assert(part * steps >= whole * steps) by (nonlinear_arith)
            requires
                part >= whole,
        ;
        if q < steps {
            assert(whole * q + whole <= whole * steps) by (nonlinear_arith)
                requires
                    q + 1 <= steps,
            ;
        }
    } else {
        assert(part * steps <= whole * steps) by (nonlinear_arith)
            requires
                part <= whole,
        ;
        if q > steps {
            assert(whole * q >= whole * steps + whole) by (nonlinear_arith)
                requires
                    q >= steps + 1,
            ;
        }
    }
}

/// The signs of a progress bar that are filled.
pub fn filled_progress_segments(downloaded: u64, total: u64) -> (r: usize)
    ensures
        r == part_of(downloaded as nat, total as nat, 20),
{
    if total == 0 {
        return PROGRESS_BAR_WIDTH;
    }
    proof {
        lemma_part_of(downloaded as nat, total as nat, 20);
    }
    let steps: u128 = (downloaded as u128 * 20) / total as u128;
    if steps >= 20 {
        proof {
            lemma_full(downloaded as nat, total as nat, 20);
        }
        PROGRESS_BAR_WIDTH
    } else {
        steps as usize
    }
}

proof fn lemma_full(part: nat, whole: nat, steps: nat)
    requires
        whole > 0,
        part * steps / whole >= steps,
    ensures
        part_of(part, whole, steps) == steps,
{
    if part < whole {
        lemma_part_of(part, whole, steps);
    }
}

/// How much of a download is there, in percent.
pub fn progress_percentage(downloaded: u64, total: u64) -> (r: u64)
    ensures
        r == part_of(downloaded as nat, total as nat, 100),
{
    if total == 0 {
        return 100;
    }
    proof {
        lemma_part_of(downloaded as nat, total as nat, 100);
    }
    let steps: u128 = (downloaded as u128 * 100) / total as u128;
    if steps >= 100 {
        proof {
            lemma_full(downloaded as nat, total as nat, 100);
        }
        100
    } else {
        steps as u64
    }
}

/// The bytes per second, in 64 bits; none where no time has passed.
pub open spec fn speed(downloaded: nat, millis: nat) -> nat {
    if millis == 0 {
        0
    } else {
        (downloaded * 1000 / millis) % 0x1_0000_0000_0000_0000
    }
}

/// The bytes per second.
pub fn download_speed(downloaded: u64, elapsed_millis: u128) -> (r: u64)
    ensures
        r == speed(downloaded as nat, elapsed_millis as nat),
{
    if elapsed_millis == 0 {
        return 0;
    }
    let rate: u128 = (downloaded as u128 * 1000) / elapsed_millis;
    let r: u64 = #[verifier::truncate]
    (rate as u64);
    assert(r == rate % 0x1_0000_0000_0000_0000u128) by (bit_vector)
        requires
            r == rate as u64,
    ;
    r
}

/// The signs of a progress bar.
pub open spec fn bar(downloaded: nat, total: Option<u64>) -> Seq<char> {
    match total {
        Some(total) => {
            let filled = part_of(downloaded, total as nat, 20);
            repeated('#', filled) + repeated('-', (20 - filled) as nat)
        },
        None => UNKNOWN_TOTAL_BAR@,
    }
}

proof fn lemma_part_is_small(part: nat, whole: nat, steps: nat)
    ensures
        part_of(part, whole, steps) <= steps,
{
    if whole > 0 {
        lemma_part_of(part, whole, steps);
    }
}

/// The signs of a progress bar.
pub fn progress_bar(downloaded: u64, total_bytes: Option<u64>) -> (r: String)
    ensures
        r@ == bar(downloaded as nat, total_bytes),
{
    match total_bytes {
        Some(total) => {
            proof {
                lemma_part_is_small(downloaded as nat, total as nat, 20);
            }
            let filled: usize = filled_progress_segments(downloaded, total);
            let mut out = repeat_char('#', filled);
            out.push_str(repeat_char('-', PROGRESS_BAR_WIDTH - filled).as_str());
            out
        },
        None => UNKNOWN_TOTAL_BAR.to_owned(),
    }
}

/// The line about a download of which so many bytes are there after a time.
pub open spec fn progress_line(downloaded: nat, total: Option<u64>, millis: nat) -> Seq<char> {
    "download ["@ + bar(downloaded, total) + "] "@ + decimal(downloaded) + " B / "@ + match total {
        Some(total) => decimal(total as nat) + " B"@,
        None => "unknown"@,
    } + " ("@ + match total {
        Some(total) => decimal(part_of(downloaded, total as nat, 100)) + "%"@,
        None => "--%"@,
    } + ") "@ + decimal(speed(downloaded, millis)) + " B/s"@
}

/// The line about a download.
pub fn format_download_progress(downloaded: u64, total_bytes: Option<u64>, elapsed_millis: u128) -> (r:
    String)
    ensures
        r@ == progress_line(downloaded as nat, total_bytes, elapsed_millis as nat),
{
    let size = match total_bytes {
        Some(total) => follow(decimal_str(total).as_str(), " B"),
        None => "unknown".to_owned(),
    };
    let percentage = match total_bytes {
        Some(total) => follow(decimal_str(progress_percentage(downloaded, total)).as_str(), "%"),
        None => "--%".to_owned(),
    };
    let mut out = follow("download [", progress_bar(downloaded, total_bytes).as_str());
    out.push_str("] ");
    out.push_str(decimal_str(downloaded).as_str());
    out.push_str(" B / ");
    out.push_str(size.as_str());
    out.push_str(" (");
    out.push_str(percentage.as_str());
    out.push_str(") ");
    out.push_str(decimal_str(download_speed(downloaded, elapsed_millis)).as_str());
    out.push_str(" B/s");
    out
}

/// A step of a download after which it is shown again.
#[derive(Debug, Clone, Copy, PartialEq, Eq, Structural)]
pub enum ProgressMarker {
    /// The signs of the bar that are filled.
    KnownBarSegments(usize),
    /// The mebibytes that are there.
    UnknownTotalBucket(u64),
}

/// The step of a download at which so many bytes are there.
pub open spec fn marker(downloaded: nat, total: Option<u64>) -> ProgressMarker {
    match total {
        Some(total) => ProgressMarker::KnownBarSegments(
            part_of(downloaded, total as nat, 20) as usize,
        ),
        None => ProgressMarker::UnknownTotalBucket((downloaded / 1_048_576) as u64),
    }
}

/// The step of a download at which so many bytes are there.
pub fn progress_marker(downloaded: u64, total_bytes: Option<u64>) -> (r: ProgressMarker)
    ensures
        r == marker(downloaded as nat, total_bytes),
{
    match total_bytes {
        Some(total) => {
            ProgressMarker::KnownBarSegments(filled_progress_segments(downloaded, total))
        },
        None => ProgressMarker::UnknownTotalBucket(downloaded / 1_048_576),
    }
}

/// What was shown of a download.
#[derive(Debug, Clone, Copy, PartialEq, Eq)]
pub struct DownloadProgressReporter {
    pub total_bytes: Option<u64>,
    /// The step that was shown last.
    pub last_marker: Option<ProgressMarker>,
    /// The bytes that were shown last.
    pub last_downloaded: Option<u64>,
}

impl DownloadProgressReporter {
    /// What was shown of a download of which so many bytes were shown last.
    pub open spec fn shown(self, downloaded: u64) -> DownloadProgressReporter {
        DownloadProgressReporter {
            last_marker: Some(marker(downloaded as nat, self.total_bytes)),
            last_downloaded: Some(downloaded),
            ..self
        }
    }

    /// A download of which nothing was shown.
    pub fn new(total_bytes: Option<u64>) -> (r: DownloadProgressReporter)
        ensures
            r == (DownloadProgressReporter { total_bytes, last_marker: None, last_downloaded: None }),
    {
        DownloadProgressReporter { total_bytes, last_marker: None, last_downloaded: None }
    }

    /// The line that shows a download.
    pub fn render(&mut self, downloaded: u64, elapsed_millis: u128) -> (r: String)
        ensures
            *final(self) == old(self).shown(downloaded),
            r@ == progress_line(
                downloaded as nat,
                old(self).total_bytes,
                elapsed_millis as nat,
            ),
    {
        let line = format_download_progress(downloaded, self.total_bytes, elapsed_millis);
        self.last_marker = Some(progress_marker(downloaded, self.total_bytes));
        self.last_downloaded = Some(downloaded);
        line
    }

    /// The line that shows a download of which nothing is there.
    pub fn start(&mut self, elapsed_millis: u128) -> (r: String)
        ensures
            *final(self) == old(self).shown(0),
            r@ == progress_line(0, old(self).total_bytes, elapsed_millis as nat),
    {
        self.render(0, elapsed_millis)
    }

    /// Whether a download is shown again now that so many bytes are there: at a step other than
    /// the one that was shown last.
    pub fn is_due(&self, downloaded: u64) -> (r: bool)
        ensures
            r == (self.last_marker != Some(marker(downloaded as nat, self.total_bytes))),
    {
        let now = progress_marker(downloaded, self.total_bytes);
        match self.last_marker {
            Some(last) => last != now,
            None => true,
        }
    }

    /// The line that shows a download of which so many bytes are there, where it is shown again.
    pub fn record(&mut self, downloaded: u64, elapsed_millis: u128) -> (r: Option<String>)
        ensures
            if old(self).last_marker != Some(marker(downloaded as nat, old(self).total_bytes)) {
                &&& *final(self) == old(self).shown(downloaded)
                &&& r.deep_view() == Some(
                    progress_line(
                        downloaded as nat,
                        old(self).total_bytes,
                        elapsed_millis as nat,
                    ),
                )
            } else {
                *final(self) == *old(self) && r is None
            },
    {
        if self.is_due(downloaded) {
            Some(self.render(downloaded, elapsed_millis))
        } else {
            None
        }
    }

    /// The line that shows a download at its end, where it does not show that much already.
    pub fn finish(&mut self, downloaded: u64, elapsed_millis: u128) -> (r: Option<String>)
        ensures
            if old(self).last_downloaded != Some(downloaded) {
                &&& *final(self) == old(self).shown(downloaded)
                &&& r.deep_view() == Some(
                    progress_line(
                        downloaded as nat,
                        old(self).total_bytes,
                        elapsed_millis as nat,
                    ),
                )
            } else {
                *final(self) == *old(self) && r is None
            },
    {
        let there = match self.last_downloaded {
            Some(last) => last == downloaded,
            None => false,
        };
        if there {
            None
        } else {
            Some(self.render(downloaded, elapsed_millis))
        }
    }
}

/// A bar has as many signs at any point of a download, and it is full exactly where all is there.
pub proof fn law_bar_is_full_at_the_end(downloaded: nat, total: u64)
    ensures
        bar(downloaded, Some(total)).len() == 20,
        (bar(downloaded, Some(total)) == repeated('#', 20)) == (downloaded >= total),
{
    let filled = part_of(downloaded, total as nat, 20);
    lemma_part_is_small(downloaded, total as nat, 20);
    let shown = bar(downloaded, Some(total));
    if downloaded >= total {
        assert(shown =~= repeated('#', 20));
    } else {
        assert(filled < 20) by {
            let scaled = downloaded * 20;
            vstd::arithmetic::div_mod::lemma_fundamental_div_mod(scaled as int, total as int);
            let q = scaled / (total as nat);
            if q >= 20 {
                assert((total as int) * q >= (total as int) * 20) by (nonlinear_arith)
                    requires
                        q >= 20,
                        total >= 0,
                ;
            }
        }
        assert(shown[19] == '-');
        assert(repeated('#', 20)[19] == '#');
    }
}

/// A download never goes back: with more bytes there, no less of it is shown as there.
pub proof fn law_progress_goes_on(before: nat, after: nat, whole: nat, steps: nat)
    requires
        before <= after,
    ensures
        part_of(before, whole, steps) <= part_of(after, whole, steps),
{
    lemma_part_is_small(before, whole, steps);
    if whole > 0 && after < whole {
        assert(before * steps <= after * steps) by (nonlinear_arith)
            requires
                before <= after,
        ;
        vstd::arithmetic::div_mod::lemma_div_is_ordered(
            (before * steps) as int,
            (after * steps) as int,
            whole as int,
        );
    }
}

} // verus!

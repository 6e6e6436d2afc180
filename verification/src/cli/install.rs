//! The `build` command: the scripts that install the editor, the GitHub
//! client and the user's dotfiles on top of the dev container.

use crate::text::{
    chars_of, contains_pattern, find, same_text, slice_of, string_of, texts, trim, trimmed,
};
use vstd::prelude::*;

verus! {

/// The command line that runs `script` in a shell.
pub open spec fn shell_command(script: Seq<char>) -> Seq<Seq<char>> {
    seq!["sh"@, "-c"@, script]
}

/// Builds the command line that runs `script` in a shell.
pub fn sh(script: String) -> (args: Vec<String>)
    ensures
        texts(args@) == shell_command(script@),
{
    let mut args: Vec<String> = Vec::new();
    args.push("sh".to_owned());
    args.push("-c".to_owned());
    args.push(script);
    args
}

/// The script that installs what every other step needs. The temporary
/// directory is opened to everybody first, as the package index cannot be
/// read otherwise on some images.
pub const PREREQUISITES_SCRIPT: &'static str =
    "mkdir -p /tmp && chmod 777 /tmp && apt-get update && \
    env DEBIAN_FRONTEND=noninteractive apt-get -y install \
    zsh curl fzf ripgrep tree git python3 tzdata git-secrets make";

/// The command line that installs what every other step needs.
pub fn install_prerequisites() -> (args: Vec<String>)
    ensures
        texts(args@) == shell_command(PREREQUISITES_SCRIPT@),
{
    sh(PREREQUISITES_SCRIPT.to_owned())
}

/// The kind of processor that the container runs on.
#[derive(Debug, Clone, Copy, PartialEq, Eq, Structural)]
pub enum Architecture {
    X86_64,
    Arm64,
}

/// The kind of processor that the output of `uname -m` names, white space
/// around it aside.
pub open spec fn architecture_of(machine: Seq<char>) -> Option<Architecture> {
    let name = trimmed(machine);
    if name == "x86_64"@ {
        Some(Architecture::X86_64)
    } else if name == "aarch64"@ || name == "arm64"@ {
        Some(Architecture::Arm64)
    } else {
        None
    }
}

/// Reads the kind of processor off the output of `uname -m`.
pub fn architecture(machine: &str) -> (arch: Option<Architecture>)
    ensures
        arch == architecture_of(machine@),
{
    let name = trim(&chars_of(machine));
    if same_text(&name, &chars_of("x86_64")) {
        Some(Architecture::X86_64)
    } else if same_text(&name, &chars_of("aarch64")) || same_text(&name, &chars_of("arm64")) {
        Some(Architecture::Arm64)
    } else {
        None
    }
}

/// The address of the archive of the editor's release `version` for `arch`.
pub open spec fn neovim_url(repository: Seq<char>, version: Seq<char>, arch: Architecture) -> Seq<
    char,
> {
    repository + "/releases/download/"@ + version + "/nvim-linux-"@ + (match arch {
        Architecture::X86_64 => "x86_64"@,
        Architecture::Arm64 => "arm64"@,
    }) + ".tar.gz"@
}

/// The end of the script that installs the released binary, after the
/// address of the archive.
pub const BINARY_SCRIPT_TAIL: &'static str =
    " && tar --strip-components=1 -C /usr/local -xzf /tmp/nvim.tar.gz && rm -f /tmp/nvim.tar.gz";

/// The script that downloads the archive at `url` and unpacks it below
/// `/usr/local`.
pub open spec fn neovim_binary_script(url: Seq<char>) -> Seq<char> {
    "rm -f /tmp/nvim.tar.gz && curl -L -o /tmp/nvim.tar.gz "@ + url + BINARY_SCRIPT_TAIL@
}

/// The command line that installs the released binary of the editor.
pub fn install_neovim_from_binary(
    repository: &str,
    version: &str,
    arch: Architecture,
) -> (args: Vec<String>)
    ensures
        texts(args@) == shell_command(
            neovim_binary_script(neovim_url(repository@, version@, arch)),
        ),
{
    let mut url = repository.to_owned();
    url.append("/releases/download/");
    url.append(version);
    url.append("/nvim-linux-");
    match arch {
        Architecture::X86_64 => url.append("x86_64"),
        Architecture::Arm64 => url.append("arm64"),
    }
    url.append(".tar.gz");
    let mut script = "rm -f /tmp/nvim.tar.gz && curl -L -o /tmp/nvim.tar.gz ".to_owned();
    script.append(url.as_str());
    script.append(BINARY_SCRIPT_TAIL);
    sh(script)
}

/// The script that installs what a build of the editor needs.
pub const SOURCE_DEPENDENCIES_SCRIPT: &'static str =
    "apt-get update && env DEBIAN_FRONTEND=noninteractive apt-get -y install \
    python3-pip python3-pynvim ninja-build gettext libtool libtool-bin autoconf automake \
    cmake g++ pkg-config zip unzip";

/// The command line that installs what a build of the editor needs.
pub fn install_source_dependencies() -> (args: Vec<String>)
    ensures
        texts(args@) == shell_command(SOURCE_DEPENDENCIES_SCRIPT@),
{
    sh(SOURCE_DEPENDENCIES_SCRIPT.to_owned())
}

/// The start of the script that builds the editor, up to the version.
pub const BUILD_SCRIPT_HEAD: &'static str = "rm -rf /tmp/neovim && mkdir -p /tmp/neovim && \
    git clone --depth 1 --no-single-branch https://github.com/neovim/neovim /tmp/neovim && \
    cd /tmp/neovim && (git checkout ";

/// The script that fetches the sources of the editor and builds `version`.
pub open spec fn neovim_build_script(version: Seq<char>) -> Seq<char> {
    BUILD_SCRIPT_HEAD@ + version + " || true) && make -j4"@
}

/// The command line that builds the editor from its sources.
pub fn install_neovim_from_source(version: &str) -> (args: Vec<String>)
    ensures
        texts(args@) == shell_command(neovim_build_script(version@)),
{
    let mut script = BUILD_SCRIPT_HEAD.to_owned();
    script.append(version);
    script.append(" || true) && make -j4");
    sh(script)
}

/// The command line that installs the editor that was built.
pub fn install_built_neovim() -> (args: Vec<String>)
    ensures
        texts(args@) == shell_command("cd /tmp/neovim && make install"@),
{
    sh("cd /tmp/neovim && make install".to_owned())
}

/// Whether the lower-case text of an error tells that a binary does not fit
/// the C library of the system.
pub open spec fn tells_of_glibc(lower: Seq<char>) -> bool {
    contains_pattern(lower, "glibc"@) || (contains_pattern(lower, "not found"@)
        && contains_pattern(lower, "version"@)) || contains_pattern(lower, "symbol lookup error"@)
        || contains_pattern(lower, "undefined symbol"@)
}

/// Whether `text` holds `pattern`.
fn holds(text: &Vec<char>, pattern: &str) -> (found: bool)
    ensures
        found == contains_pattern(text@, pattern@),
{
    find(text, &chars_of(pattern), 0).is_some()
}

/// Judges the text of an error that was put into lower case.
pub fn is_glibc_compatibility_error_text(lower: &str) -> (glibc: bool)
    ensures
        glibc == tells_of_glibc(lower@),
{
    let text = chars_of(lower);
    holds(&text, "glibc") || (holds(&text, "not found") && holds(&text, "version")) || holds(
        &text,
        "symbol lookup error",
    ) || holds(&text, "undefined symbol")
}

/// What `str::to_lowercase` makes of a text.
pub uninterp spec fn lowercase(text: Seq<char>) -> Seq<char>;

/// `str::to_lowercase`: the text with every character replaced by its
/// lower-case form as Unicode defines it. The result is named, not stated.
#[verifier::external_body]
fn to_lowercase(text: &str) -> (lower: String)
    ensures
        lower@ == lowercase(text@),
{
    text.to_lowercase()
}

/// Whether an error tells, in upper or lower case, that a binary does not
/// fit the C library of the system.
pub fn is_glibc_compatibility_error_str(error: &str) -> (glibc: bool)
    ensures
        glibc == tells_of_glibc(lowercase(error@)),
{
    is_glibc_compatibility_error_text(to_lowercase(error).as_str())
}

/// The name of `arch` in the releases of the GitHub client.
pub open spec fn github_cli_arch(arch: Architecture) -> Seq<char> {
    match arch {
        Architecture::X86_64 => "amd64"@,
        Architecture::Arm64 => "arm64"@,
    }
}

/// The version that a release tag names: the tag without the `v`s at its
/// start.
pub open spec fn version_of_tag(tag: Seq<char>) -> Seq<char>
    decreases tag.len(),
{
    if tag.len() > 0 && tag[0] == 'v' {
        version_of_tag(tag.drop_first())
    } else {
        tag
    }
}

/// The directory that the archive of the GitHub client unpacks to.
pub open spec fn github_cli_dir(tag: Seq<char>, arch: Architecture) -> Seq<char> {
    "gh_"@ + version_of_tag(tag) + "_linux_"@ + github_cli_arch(arch)
}

/// The start of the script that installs the GitHub client, up to the tag
/// of the release.
pub const GITHUB_CLI_SCRIPT_HEAD: &'static str =
    "mkdir -p ~/.local/bin && rm -f /tmp/gh.tar.gz && curl -L -o /tmp/gh.tar.gz \
    https://github.com/cli/cli/releases/download/";

/// The script that installs the release `tag` of the GitHub client below
/// the home directory.
pub open spec fn github_cli_script(tag: Seq<char>, arch: Architecture) -> Seq<char> {
    GITHUB_CLI_SCRIPT_HEAD@ + tag + "/"@ + github_cli_dir(tag, arch)
        + ".tar.gz && tar -C /tmp -xzf /tmp/gh.tar.gz && cp /tmp/"@ + github_cli_dir(tag, arch)
        + "/bin/gh ~/.local/bin/gh && chmod +x ~/.local/bin/gh && rm -rf /tmp/gh.tar.gz /tmp/"@
        + github_cli_dir(tag, arch)
}

/// Removes the `v`s at the start of a release tag.
fn tag_version(tag: &Vec<char>) -> (version: Vec<char>)
    ensures
        version@ == version_of_tag(tag@),
{
    let mut start: usize = 0;
    assert(tag@.subrange(0, tag@.len() as int) == tag@);
    while start < tag.len() && tag[start] == 'v'
        invariant
            start <= tag.len(),
            version_of_tag(tag@) == version_of_tag(tag@.subrange(start as int, tag.len() as int)),
        decreases tag.len() - start,
    {
        assert(tag@.subrange(start as int, tag.len() as int).drop_first() == tag@.subrange(
            start + 1,
            tag.len() as int,
        ));
        start += 1;
    }
    slice_of(tag, start, tag.len())
}

/// The command line that installs the release `tag` of the GitHub client.
pub fn install_github_cli(tag: &str, arch: Architecture) -> (args: Vec<String>)
    ensures
        texts(args@) == shell_command(github_cli_script(tag@, arch)),
{
    let version = string_of(&tag_version(&chars_of(tag)));
    let mut dir = "gh_".to_owned();
    dir.append(version.as_str());
    dir.append("_linux_");
    match arch {
        Architecture::X86_64 => dir.append("amd64"),
        Architecture::Arm64 => dir.append("arm64"),
    }
    let mut script = GITHUB_CLI_SCRIPT_HEAD.to_owned();
    script.append(tag);
    script.append("/");
    script.append(dir.as_str());
    script.append(".tar.gz && tar -C /tmp -xzf /tmp/gh.tar.gz && cp /tmp/");
    script.append(dir.as_str());
    script.append(
        "/bin/gh ~/.local/bin/gh && chmod +x ~/.local/bin/gh && rm -rf /tmp/gh.tar.gz /tmp/",
    );
    script.append(dir.as_str());
    sh(script)
}

/// The place in the container of a file of the editor's assistant.
pub fn copilot_path(file: &str) -> (path: String)
    ensures
        path@ == "$(readlink -f $(echo $HOME))/.config/github-copilot/"@ + file@,
{
    let mut path = "$(readlink -f $(echo $HOME))/.config/github-copilot/".to_owned();
    path.append(file);
    path
}

/// The command line that hands `/opt` over to `owner_user`.
pub fn prepare_opt_dir(owner_user: &str) -> (args: Vec<String>)
    ensures
        texts(args@) == shell_command(
            "mkdir -p /opt && chown -R "@ + owner_user@ + ":"@ + owner_user@ + " /opt"@,
        ),
{
    let mut script = "mkdir -p /opt && chown -R ".to_owned();
    script.append(owner_user);
    script.append(":");
    script.append(owner_user);
    script.append(" /opt");
    sh(script)
}

/// The start of the script that installs the dotfiles, up to the command
/// that the user has configured.
pub const DOTFILES_SCRIPT_HEAD: &'static str =
    "rm -rf /opt/dotfiles && ~/.local/bin/gh repo clone dotfiles /opt/dotfiles && \
    cd /opt/dotfiles && ";

/// The command line that fetches the user's dotfiles and installs them with
/// `install_command`.
pub fn install_dotfiles(install_command: &str) -> (args: Vec<String>)
    ensures
        texts(args@) == shell_command(DOTFILES_SCRIPT_HEAD@ + install_command@),
{
    let mut script = DOTFILES_SCRIPT_HEAD.to_owned();
    script.append(install_command);
    sh(script)
}

} // verus!

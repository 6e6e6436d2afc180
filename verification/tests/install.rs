use dockim::cli::install::{
    architecture, copilot_path, install_built_neovim, install_dotfiles, install_github_cli,
    install_neovim_from_binary, install_neovim_from_source, install_prerequisites,
    install_source_dependencies, is_glibc_compatibility_error_str,
    is_glibc_compatibility_error_text, prepare_opt_dir, sh, Architecture,
};

fn script(args: Vec<String>) -> String {
    assert_eq!(args.len(), 3);
    assert_eq!(args[0], "sh");
    assert_eq!(args[1], "-c");
    args[2].clone()
}

#[test]
fn a_script_is_run_by_the_shell() {
    assert_eq!(sh("echo hi".to_string()), vec!["sh", "-c", "echo hi"]);
}

#[test]
fn the_architecture_is_read_off_uname() {
    assert_eq!(architecture("x86_64\n"), Some(Architecture::X86_64));
    assert_eq!(architecture(" aarch64 "), Some(Architecture::Arm64));
    assert_eq!(architecture("arm64"), Some(Architecture::Arm64));
    assert_eq!(architecture("riscv64\n"), None);
    assert_eq!(architecture(""), None);
    assert_eq!(architecture("x86_64 x"), None);
}

#[test]
fn the_prerequisites_are_installed_as_one_script() {
    assert_eq!(
        script(install_prerequisites()),
        "mkdir -p /tmp && chmod 777 /tmp && apt-get update && \
         env DEBIAN_FRONTEND=noninteractive apt-get -y install \
         zsh curl fzf ripgrep tree git python3 tzdata git-secrets make"
    );
    assert_eq!(
        script(install_source_dependencies()),
        "apt-get update && env DEBIAN_FRONTEND=noninteractive apt-get -y install \
         python3-pip python3-pynvim ninja-build gettext libtool libtool-bin autoconf automake \
         cmake g++ pkg-config zip unzip"
    );
}

#[test]
fn the_editor_is_downloaded_for_the_architecture() {
    assert_eq!(
        script(install_neovim_from_binary(
            "https://github.com/neovim/neovim",
            "v0.11.0",
            Architecture::X86_64
        )),
        "rm -f /tmp/nvim.tar.gz && curl -L -o /tmp/nvim.tar.gz \
         https://github.com/neovim/neovim/releases/download/v0.11.0/nvim-linux-x86_64.tar.gz && \
         tar --strip-components=1 -C /usr/local -xzf /tmp/nvim.tar.gz && rm -f /tmp/nvim.tar.gz"
    );
    assert!(script(install_neovim_from_binary("r", "v", Architecture::Arm64))
        .contains(" r/releases/download/v/nvim-linux-arm64.tar.gz "));
}

#[test]
fn the_editor_is_built_at_the_configured_version() {
    assert_eq!(
        script(install_neovim_from_source("v0.11.0")),
        "rm -rf /tmp/neovim && mkdir -p /tmp/neovim && \
         git clone --depth 1 --no-single-branch https://github.com/neovim/neovim /tmp/neovim && \
         cd /tmp/neovim && (git checkout v0.11.0 || true) && make -j4"
    );
    assert_eq!(script(install_built_neovim()), "cd /tmp/neovim && make install");
}

#[test]
fn errors_of_the_c_library_are_recognised_in_any_case() {
    assert!(is_glibc_compatibility_error_str("version `GLIBC_2.34' not found"));
    assert!(is_glibc_compatibility_error_str("nvim: Symbol Lookup Error: ..."));
    assert!(is_glibc_compatibility_error_str("UNDEFINED SYMBOL: foo"));
    assert!(is_glibc_compatibility_error_str("libfoo.so: Version `X' Not Found"));
    assert!(!is_glibc_compatibility_error_str("nvim: command not found"));
    assert!(!is_glibc_compatibility_error_str("wrong version"));
    assert!(!is_glibc_compatibility_error_str(""));
    assert!(is_glibc_compatibility_error_text("glibc"));
    assert!(!is_glibc_compatibility_error_text("GLIBC"));
    assert!(is_glibc_compatibility_error_text("version not found"));
    assert!(!is_glibc_compatibility_error_text("not found"));
}

#[test]
fn the_github_client_is_installed_from_its_release() {
    assert_eq!(
        script(install_github_cli("v2.40.1", Architecture::X86_64)),
        "mkdir -p ~/.local/bin && rm -f /tmp/gh.tar.gz && curl -L -o /tmp/gh.tar.gz \
         https://github.com/cli/cli/releases/download/v2.40.1/gh_2.40.1_linux_amd64.tar.gz && \
         tar -C /tmp -xzf /tmp/gh.tar.gz && \
         cp /tmp/gh_2.40.1_linux_amd64/bin/gh ~/.local/bin/gh && \
         chmod +x ~/.local/bin/gh && rm -rf /tmp/gh.tar.gz /tmp/gh_2.40.1_linux_amd64"
    );
    let arm = script(install_github_cli("vv3", Architecture::Arm64));
    assert!(arm.contains("/download/vv3/gh_3_linux_arm64.tar.gz "));
    let plain = script(install_github_cli("3v", Architecture::Arm64));
    assert!(plain.contains("/download/3v/gh_3v_linux_arm64.tar.gz "));
}

#[test]
fn the_last_steps_prepare_the_home_of_the_dotfiles() {
    assert_eq!(
        copilot_path("hosts.json"),
        "$(readlink -f $(echo $HOME))/.config/github-copilot/hosts.json"
    );
    assert_eq!(script(prepare_opt_dir("vscode")), "mkdir -p /opt && chown -R vscode:vscode /opt");
    assert_eq!(
        script(install_dotfiles("./install.sh")),
        "rm -rf /opt/dotfiles && ~/.local/bin/gh repo clone dotfiles /opt/dotfiles && \
         cd /opt/dotfiles && ./install.sh"
    );
}

//! The commands that write configuration files: what they write, and where.

use crate::cli::{join_path, joined};
use crate::text::{chars_of, string_of};
use vstd::prelude::*;

verus! {

/// The dev container configuration that `init` writes.
pub const DEVCONTAINER_JSON: &'static str = r#"{
    "name": "Development Container",
    "dockerComposeFile": "compose.yml",
    "service": "app",
    "workspaceFolder": "/workspace",
    "remoteUser": "vscode",
    // "forwardPorts": [3000, 8080],
    "postCreateCommand": "echo 'Container is ready!'",
    "customizations": {
        "vscode": {
            "extensions": []
        }
    }
}
"#;

/// The compose file that `init` writes.
pub const COMPOSE_YAML: &'static str = r#"services:
  app:
    build:
      context: ..
      dockerfile: .devcontainer/Dockerfile
    volumes:
      - ..:/workspace:cached
    working_dir: /workspace
    command: sleep infinity
"#;

/// The image description that `init` writes.
pub const DOCKERFILE: &'static str = r#"FROM ubuntu:22.04

RUN apt-get update && apt-get install -y \
    git \
    sudo \
    && rm -rf /var/lib/apt/lists/*

ARG USERNAME=vscode
ARG USER_UID=1000
ARG USER_GID=$USER_UID
RUN groupadd --gid $USER_GID $USERNAME \
    && useradd --uid $USER_UID --gid $USER_GID -m $USERNAME \
    && echo $USERNAME ALL=\(root\) NOPASSWD:ALL > /etc/sudoers.d/$USERNAME \
    && chmod 0440 /etc/sudoers.d/$USERNAME

USER $USERNAME

WORKDIR /workspace
"#;

/// The contents of the new `devcontainer.json`.
pub fn generate_devcontainer_json() -> (contents: &'static str)
    ensures
        contents@ == DEVCONTAINER_JSON@,
{
    DEVCONTAINER_JSON
}

/// The contents of the new `compose.yml`.
pub fn generate_compose_yaml() -> (contents: &'static str)
    ensures
        contents@ == COMPOSE_YAML@,
{
    COMPOSE_YAML
}

/// The contents of the new `Dockerfile`.
pub fn generate_dockerfile() -> (contents: &'static str)
    ensures
        contents@ == DOCKERFILE@,
{
    DOCKERFILE
}

/// A file to be written.
#[derive(Debug, Clone, PartialEq, Eq)]
pub struct TemplateFile {
    pub path: String,
    pub contents: &'static str,
}

/// The files that make up a new dev container configuration in the
/// directory `devcontainer_dir`, in the order in which they are written.
pub fn create_devcontainer_template(devcontainer_dir: &str, separator: char) -> (files: Vec<
    TemplateFile,
>)
    ensures
        files.len() == 3,
        files@[0].path@ == joined(devcontainer_dir@, "devcontainer.json"@, separator),
        files@[0].contents@ == DEVCONTAINER_JSON@,
        files@[1].path@ == joined(devcontainer_dir@, "compose.yml"@, separator),
        files@[1].contents@ == COMPOSE_YAML@,
        files@[2].path@ == joined(devcontainer_dir@, "Dockerfile"@, separator),
        files@[2].contents@ == DOCKERFILE@,
{
    let dir = chars_of(devcontainer_dir);
    let mut files: Vec<TemplateFile> = Vec::new();
    files.push(
        TemplateFile {
            path: string_of(&join_path(&dir, "devcontainer.json", separator)),
            contents: generate_devcontainer_json(),
        },
    );
    files.push(
        TemplateFile {
            path: string_of(&join_path(&dir, "compose.yml", separator)),
            contents: generate_compose_yaml(),
        },
    );
    files.push(
        TemplateFile {
            path: string_of(&join_path(&dir, "Dockerfile", separator)),
            contents: generate_dockerfile(),
        },
    );
    files
}

/// The directory of the Docker client's configuration: `.docker` below the
/// home directory that `HOME` names, else below the one that `USERPROFILE`
/// names, else below the current directory.
pub fn get_docker_config_dir(
    home: &Option<String>,
    user_profile: &Option<String>,
    separator: char,
) -> (dir: String)
    ensures
        dir@ == joined(
            match (home, user_profile) {
                (Some(h), _) => h@,
                (None, Some(p)) => p@,
                (None, None) => "."@,
            },
            ".docker"@,
            separator,
        ),
{
    let base = match home {
        Some(h) => chars_of(h.as_str()),
        None => match user_profile {
            Some(p) => chars_of(p.as_str()),
            None => chars_of("."),
        },
    };
    string_of(&join_path(&base, ".docker", separator))
}

} // verus!

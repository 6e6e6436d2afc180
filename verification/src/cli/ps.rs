//! The `ps` command: what it prints about the configuration and about the
//! containers of the project.

use crate::text::{chars_of, extend_from_range, string_of, texts};
use vstd::prelude::*;

verus! {

/// What the container runtime tells of one container.
#[derive(Debug, Clone, PartialEq, Eq)]
pub struct ComposeContainerInfo {
    pub id: String,
    pub name: String,
    pub service: Option<String>,
    pub status: String,
    pub image: String,
}

/// `text` followed by as many spaces as it takes to make it `width`
/// characters long; a longer text is left as it is.
pub open spec fn padded(text: Seq<char>, width: nat) -> Seq<char> {
    if text.len() >= width {
        text
    } else {
        text + Seq::new((width - text.len()) as nat, |i: int| ' ')
    }
}

/// The first twelve characters of a container's identifier, or all of it if
/// it has no more.
pub open spec fn short_id(id: Seq<char>) -> Seq<char> {
    if id.len() > 12 {
        id.subrange(0, 12)
    } else {
        id
    }
}

/// One row of the table: five columns, two spaces before each, the first
/// four padded to 12, 32, 16 and 24 characters.
pub open spec fn table_row(
    id: Seq<char>,
    name: Seq<char>,
    service: Seq<char>,
    status: Seq<char>,
    image: Seq<char>,
) -> Seq<char> {
    "  "@ + padded(id, 12) + "  "@ + padded(name, 32) + "  "@ + padded(service, 16) + "  "@
        + padded(status, 24) + "  "@ + image
}

/// The row of the table that shows `container`.
pub open spec fn container_row(container: ComposeContainerInfo) -> Seq<char> {
    table_row(
        short_id(container.id@),
        container.name@,
        match container.service {
            Some(service) => service@,
            None => "-"@,
        },
        container.status@,
        container.image@,
    )
}

/// The rows that show the first `n` containers.
pub open spec fn container_rows(containers: Seq<ComposeContainerInfo>, n: int) -> Seq<Seq<char>>
    decreases n,
{
    if n <= 0 {
        Seq::empty()
    } else {
        container_rows(containers, n - 1).push(container_row(containers[n - 1]))
    }
}

/// Appends `text`, padded to `width` characters, to `out`.
fn push_padded(out: &mut Vec<char>, text: &Vec<char>, width: usize)
    ensures
        final(out)@ == old(out)@ + padded(text@, width as nat),
{
    extend_from_range(out, text, 0, text.len());
    let mut n: usize = text.len();
    while n < width
        invariant
            text.len() <= n,
            text.len() < width ==> n <= width,
            text.len() >= width ==> n == text.len(),
            out@ == old(out)@ + text@ + Seq::new((n - text.len()) as nat, |i: int| ' '),
        decreases width - n,
    {
        out.push(' ');
        n += 1;
    }
}

/// Builds one row of the table.
fn row(id: &Vec<char>, name: &str, service: &str, status: &str, image: &str) -> (line: String)
    ensures
        line@ == table_row(id@, name@, service@, status@, image@),
{
    let gap = chars_of("  ");
    let mut out: Vec<char> = Vec::new();
    extend_from_range(&mut out, &gap, 0, gap.len());
    push_padded(&mut out, id, 12);
    extend_from_range(&mut out, &gap, 0, gap.len());
    push_padded(&mut out, &chars_of(name), 32);
    extend_from_range(&mut out, &gap, 0, gap.len());
    push_padded(&mut out, &chars_of(service), 16);
    extend_from_range(&mut out, &gap, 0, gap.len());
    push_padded(&mut out, &chars_of(status), 24);
    extend_from_range(&mut out, &gap, 0, gap.len());
    let last = chars_of(image);
    extend_from_range(&mut out, &last, 0, last.len());
    string_of(&out)
}

/// The table of the containers: a heading and one row for each container.
pub fn print_containers_table(containers: &Vec<ComposeContainerInfo>) -> (lines: Vec<String>)
    ensures
        texts(lines@) == seq![table_row("ID"@, "NAME"@, "SERVICE"@, "STATUS"@, "IMAGE"@)]
            + container_rows(containers@, containers.len() as int),
{
    let mut lines: Vec<String> = Vec::new();
    lines.push(row(&chars_of("ID"), "NAME", "SERVICE", "STATUS", "IMAGE"));
    let ghost head = seq![table_row("ID"@, "NAME"@, "SERVICE"@, "STATUS"@, "IMAGE"@)];
    let mut i: usize = 0;
    while i < containers.len()
        invariant
            i <= containers.len(),
            head == seq![table_row("ID"@, "NAME"@, "SERVICE"@, "STATUS"@, "IMAGE"@)],
            texts(lines@) == head + container_rows(containers@, i as int),
        decreases containers.len() - i,
    {
        let ghost before = texts(lines@);
        let container = &containers[i];
        let id = chars_of(container.id.as_str());
        let shown = if id.len() > 12 {
            crate::text::slice_of(&id, 0, 12)
        } else {
            assert(id@.subrange(0, id@.len() as int) == id@);
            crate::text::slice_of(&id, 0, id.len())
        };
        let line = match &container.service {
            Some(service) => row(
                &shown,
                container.name.as_str(),
                service.as_str(),
                container.status.as_str(),
                container.image.as_str(),
            ),
            None => row(
                &shown,
                container.name.as_str(),
                "-",
                container.status.as_str(),
                container.image.as_str(),
            ),
        };
        lines.push(line);
        assert(texts(lines@) =~= before.push(container_row(containers@[i as int])));
        i += 1;
    }
    lines
}

/// What is printed about the configuration in use.
pub fn print_configuration(workspace_folder: &str, config_path: &str) -> (lines: Vec<String>)
    ensures
        texts(lines@) == seq![
            "Configuration"@,
            "  Workspace: "@ + workspace_folder@,
            "  Config:    "@ + config_path@,
        ],
{
    let mut workspace = "  Workspace: ".to_owned();
    workspace.append(workspace_folder);
    let mut config = "  Config:    ".to_owned();
    config.append(config_path);
    let mut lines: Vec<String> = Vec::new();
    lines.push("Configuration".to_owned());
    lines.push(workspace);
    lines.push(config);
    lines
}

} // verus!

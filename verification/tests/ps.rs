use dockim::cli::ps::{print_configuration, print_containers_table, ComposeContainerInfo};

fn container(id: &str, name: &str, service: Option<&str>, status: &str, image: &str) -> ComposeContainerInfo {
    ComposeContainerInfo {
        id: id.to_string(),
        name: name.to_string(),
        service: service.map(|s| s.to_string()),
        status: status.to_string(),
        image: image.to_string(),
    }
}

fn formatted(id: &str, name: &str, service: &str, status: &str, image: &str) -> String {
    format!("  {:<12}  {:<32}  {:<16}  {:<24}  {}", id, name, service, status, image)
}

#[test]
fn the_table_has_a_heading_and_a_row_for_each_container() {
    let containers = vec![
        container("0123456789abcdef0123", "proj-app-1", Some("app"), "Up 3 minutes", "ubuntu:22.04"),
        container("abc", "a-name-that-is-longer-than-the-column-is-wide", None, "", "img"),
    ];
    assert_eq!(
        print_containers_table(&containers),
        vec![
            formatted("ID", "NAME", "SERVICE", "STATUS", "IMAGE"),
            formatted("0123456789ab", "proj-app-1", "app", "Up 3 minutes", "ubuntu:22.04"),
            formatted("abc", "a-name-that-is-longer-than-the-column-is-wide", "-", "", "img"),
        ]
    );
    assert_eq!(
        print_containers_table(&vec![]),
        vec!["  ID            NAME                              SERVICE           STATUS                    IMAGE"]
    );
}

#[test]
fn an_identifier_of_twelve_characters_is_shown_whole() {
    let rows = print_containers_table(&vec![
        container("0123456789ab", "n", None, "s", "i"),
        container("0123456789abc", "n", None, "s", "i"),
        container("éééééééééééé-", "n", None, "s", "i"),
    ]);
    assert!(rows[1].starts_with("  0123456789ab  n "));
    assert!(rows[2].starts_with("  0123456789ab  n "));
    assert_eq!(rows[3], formatted("éééééééééééé", "n", "-", "s", "i"));
}

#[test]
fn the_configuration_is_printed_in_three_lines() {
    assert_eq!(
        print_configuration("/work", "/work/.devcontainer/devcontainer.json"),
        vec![
            "Configuration",
            "  Workspace: /work",
            "  Config:    /work/.devcontainer/devcontainer.json",
        ]
    );
}

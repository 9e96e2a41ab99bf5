use rbox_core::listing::{list_command, parse_listing};

#[test]
fn listing_keeps_valid_lines_and_flags_directories() {
    let output = "-rw-r--r--. 1 root root 2723 Jun 16 15:19 init.log\n\
                  broken line here\n\
                  drwxrwxr-x 13 501 games 4096 Jul 20 15:54 download";
    let entries = parse_listing(output);
    assert_eq!(entries.len(), 2);
    assert_eq!(entries[0].name().as_str(), "init.log");
    assert!(!entries[0].is_dir());
    assert_eq!(entries[1].name().as_str(), "download");
    assert!(entries[1].is_dir());
}

#[test]
fn listing_fields_in_order() {
    let entries = parse_listing("total 8\ndrwx------  4 501  games   4096 Jan 29 17:17 project-src\n");
    assert_eq!(entries.len(), 1);
    let e = &entries[0];
    assert_eq!(e.access().as_str(), "drwx------");
    assert_eq!(e.user().as_str(), "501");
    assert_eq!(e.group().as_str(), "games");
    assert_eq!(e.size().as_str(), "4096");
    assert_eq!(e.month().as_str(), "Jan");
    assert_eq!(e.day().as_str(), "29");
    assert_eq!(e.time().as_str(), "17:17");
    assert_eq!(e.name().as_str(), "project-src");
    assert!(e.is_dir());
}

#[test]
fn listing_name_is_ninth_field_only() {
    let entries = parse_listing("-rw-r--r-- 1 roo roo 706563 Jun 19 14:33 realsee-vr. ar.gz");
    assert_eq!(entries.len(), 1);
    assert_eq!(entries[0].name().as_str(), "realsee-vr.");
    assert_eq!(entries[0].size().as_str(), "706563");
}

#[test]
fn listing_of_empty_output_is_empty() {
    assert_eq!(parse_listing("").len(), 0);
    assert_eq!(parse_listing("\n\n   \n").len(), 0);
    assert_eq!(parse_listing("a b c d e f g h").len(), 0);
}

#[test]
fn list_command_prefixes_path() {
    assert_eq!(list_command("/var/log").as_str(), "ls -l /var/log");
    assert_eq!(list_command("").as_str(), "ls -l ");
}

#[test]
fn listing_from_raw_bytes() {
    let mut bytes = b"-rw-r--r-- 1 u g 12 Jan 1 10:00 caf".to_vec();
    bytes.push(0xff);
    bytes.extend_from_slice(b"\nshort\n");
    let entries = rbox_core::listing::parse_listing_output(&bytes);
    assert_eq!(entries.len(), 1);
    assert_eq!(entries[0].name().as_str(), "caf\u{FFFD}");
}

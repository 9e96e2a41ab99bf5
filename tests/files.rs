use rbox_core::files::FileInfo;
use rbox_core::jsonp::jsonp_for_file;

#[test]
fn describe_directory_and_file() {
    let d = FileInfo::describe_sized("docs".to_string(), true, 1000);
    assert_eq!(d.name().as_str(), "docs");
    assert_eq!(d.file_type().as_str(), "directory");
    assert_eq!(d.size(), 1000);
    assert_eq!(d.human_size().as_str(), "1.000 KB");
    let f = FileInfo::describe_sized("a.txt".to_string(), false, 999);
    assert_eq!(f.file_type().as_str(), "file");
    assert_eq!(f.human_size().as_str(), "999 B");
    assert_eq!(FileInfo::describe_sized(String::new(), false, 2_101_123).human_size().as_str(), "2.101 MB");
    let g = FileInfo::describe("b".to_string(), false, 5, "5 B".to_string());
    assert_eq!(g.human_size().as_str(), "5 B");
    assert_eq!(g.size(), 5);
}

#[test]
fn jsonp_for_file_uses_extension() {
    assert_eq!(
        jsonp_for_file("/tmp/pic.png", b"abc", "7").as_str(),
        "window[\"jsonp_7\"] && window[\"jsonp_7\"](\"data:image/png;base64,YWJj\")"
    );
    assert_eq!(
        jsonp_for_file("notes.txt", b"abc", "7").as_str(),
        "window['jsonp_7'] && window['jsonp_7'](\"data:application/octet-stream;base64,YWJj\")"
    );
}

use meetix::path::Path;
use meetix::sys::codes::KernPathFnId;
use meetix::sys::fn_path::KernFnPath;

fn text(path: &Path) -> &str {
    path.as_str().unwrap()
}

#[test]
fn path_normalizes_separators_and_links() {
    assert_eq!(text(&Path::from_raw("/Path/To///.././Something")), "/Path/Something");
    assert_eq!(text(&Path::from_raw("../Stuffs/./To/../Searched")), "../Stuffs/Searched");
    assert_eq!(text(&Path::from_raw("a//b///c/")), "a/b/c");
    assert_eq!(text(&Path::from_raw("./a/./b/.")), "a/b");
    assert_eq!(text(&Path::from_raw("/")), "/");
    assert_eq!(text(&Path::from_raw("")), "");
    assert_eq!(text(&Path::from_raw("//")), "");
    assert!(Path::from_raw("//").is_absolute());
    assert_eq!(text(&Path::from_raw("/a")), "/a");
    assert_eq!(text(&Path::from_raw("a")), "a");
}

#[test]
fn path_parent_links() {
    assert_eq!(text(&Path::from_raw("a/b/../..")), "");
    assert_eq!(text(&Path::from_raw("a/..")), "");
    assert_eq!(text(&Path::from_raw("..")), "..");
    assert_eq!(text(&Path::from_raw("../..")), "../..");
    assert_eq!(text(&Path::from_raw("a/../..")), "..");
    assert_eq!(text(&Path::from_raw("/..")), "");
    assert_eq!(text(&Path::from_raw("/../a")), "/a");
    assert_eq!(text(&Path::from_raw("/a/../../b")), "/b");
    assert_eq!(text(&Path::from_raw("...")), "...");
    assert_eq!(text(&Path::from_raw("..a/.b")), "..a/.b");
}

#[test]
fn path_append() {
    let mut path = Path::from_raw("/usr");
    path.append_raw("lib/./meetix");
    assert_eq!(text(&path), "/usr/lib/meetix");
    path.append_raw("../../bin");
    assert_eq!(text(&path), "/usr/bin");
    path.append_raw("/etc");
    assert_eq!(text(&path), "/etc");
    assert!(path.is_absolute());
    path.append(&Path::from_raw("conf.d"));
    assert_eq!(text(&path), "/etc/conf.d");
    path.append(&Path::from_raw("/"));
    assert_eq!(text(&path), "/");
    path.append_raw("x");
    assert_eq!(text(&path), "/x");
    path.append_bytes(b"y/z");
    assert_eq!(path.as_bytes(), b"/x/y/z");
    let mut relative = Path::new();
    relative.append_raw("a");
    relative.append_raw("");
    relative.append_raw("b");
    assert_eq!(text(&relative), "a/b");
    assert!(!relative.is_absolute());
}

#[test]
fn path_pop_and_basename() {
    let mut path = Path::from_raw("/a/bb/ccc");
    assert_eq!(path.len(), 9);
    assert_eq!(text(&path.basename().unwrap()), "ccc");
    assert!(!path.basename().unwrap().is_absolute());
    assert_eq!(text(&path.pop().unwrap()), "ccc");
    assert_eq!(text(&path), "/a/bb");
    assert_eq!(text(&path.pop().unwrap()), "bb");
    assert_eq!(text(&path.pop().unwrap()), "a");
    assert_eq!(text(&path), "");
    assert!(path.is_empty());
    assert!(path.is_absolute());
    assert!(path.pop().is_none());
    assert!(path.basename().is_none());
    let mut root = Path::from_raw("/");
    assert!(root.pop().is_none());
    assert_eq!(text(&root), "/");
    let mut relative = Path::from_raw("x/y");
    assert_eq!(text(&relative.pop().unwrap()), "y");
    assert_eq!(text(&relative.pop().unwrap()), "x");
    assert!(relative.pop().is_none());
}

#[test]
fn path_components() {
    let path = Path::from_raw("/Users/Marco/Docs/example.txt");
    assert_eq!(
        path.components(),
        vec![b"Users".to_vec(), b"Marco".to_vec(), b"Docs".to_vec(), b"example.txt".to_vec()]
    );
    assert!(Path::from_raw("/").components().is_empty());
    assert!(Path::new().components().is_empty());
    assert_eq!(Path::from_raw("../x").components(), vec![b"..".to_vec(), b"x".to_vec()]);
}

#[test]
fn path_predicates() {
    let empty = Path::default();
    assert!(empty.is_empty());
    assert!(!empty.is_absolute());
    assert!(!empty.may_pop_last());
    assert!(!empty.last_is_separator());
    assert_eq!(empty.len(), 0);
    let root = Path::from_raw("/");
    assert!(root.last_is_separator());
    assert!(root.may_pop_last());
    assert!(Path::from_raw("//").may_pop_last());
    assert!(Path::from_raw("a").may_pop_last());
    assert!(!Path::from_raw("a").last_is_separator());
    assert!(!Path::from_raw("..").may_pop_last());
    assert!(!Path::from_raw("a/../..").may_pop_last());
    assert!(Path::from_raw("../a").may_pop_last());
}

#[test]
fn path_exists_query() {
    let path = Path::from_raw("/a");
    let call = path.exists_query(0x1000, 0x2000);
    assert_eq!(call.fn_path(), KernFnPath::Path(KernPathFnId::Exists));
    assert_eq!((call.handle_bits(), call.arg(0), call.arg(1)), (0, 0x1000, 0x2000));
}

#[test]
fn path_keeps_non_ascii_names() {
    let path = Path::from_raw("/Città/./Über/../naïve");
    assert_eq!(text(&path), "/Città/naïve");
}

#[test]
fn path_pop_many() {
    let mut path = Path::from_raw("/a/b/c/d");
    assert_eq!(path.pop_many(2), 2);
    assert_eq!(text(&path), "/a/b");
    assert_eq!(path.pop_many(0), 0);
    assert_eq!(path.pop_many(5), 2);
    assert_eq!(text(&path), "");
    assert!(path.is_absolute());
    assert_eq!(path.pop_many(1), 0);
}

#[test]
fn path_is_same_compares_the_bytes() {
    assert!(Path::from_raw("a/./b").is_same(&Path::from_raw("a//b")));
    assert!(!Path::from_raw("a/b").is_same(&Path::from_raw("a/c")));
    assert!(!Path::from_raw("a/b").is_same(&Path::from_raw("a/b/c")));
    assert!(Path::from_raw("//").is_same(&Path::new()));
}

#[test]
fn path_as_str_needs_valid_utf8() {
    let mut path = Path::new();
    path.append_bytes(&[b'a', 0xFF, b'b']);
    assert_eq!(path.as_bytes(), &[b'a', 0xFF, b'b']);
    assert!(path.as_str().is_none());
    let mut cut = Path::new();
    cut.append_bytes(&[0xC3]);
    assert!(cut.as_str().is_none());
    cut.append_bytes(b"/ok");
    assert_eq!(cut.as_str(), Some("/ok"));
    assert_eq!(Path::new().as_str(), Some(""));
}

#[test]
fn path_absolute_path_overwrites() {
    let long = "x".repeat(1000);
    let mut path = Path::from_raw(long.as_str());
    let absolute = Path::from_raw("/usr/../etc/./conf.d");
    path.append(&absolute);
    assert_eq!(text(&path), "/etc/conf.d");
    assert!(path.is_absolute());
    assert!(path.is_same(&absolute));
    assert_eq!(text(&absolute), "/etc/conf.d");
    let mut other = Path::from_raw(long.as_str());
    other.append_raw(text(&absolute));
    assert!(other.is_same(&path));
    path.append(&Path::from_raw("/"));
    assert_eq!(text(&path), "/");
}

#[test]
fn path_takes_a_raw_path_of_the_whole_length_limit() {
    let mut raw = String::from("/");
    raw.push_str("a".repeat(1023).as_str());
    assert_eq!(raw.len(), 1024);
    let path = Path::from_raw(raw.as_str());
    assert_eq!(path.len(), 1024);
    assert_eq!(text(&path), raw.as_str());
    let relative = "b".repeat(1024);
    assert_eq!(Path::from_raw(relative.as_str()).len(), 1024);
    let mut short = Path::from_raw(relative.as_str());
    short.append_raw("..");
    assert_eq!(short.len(), 0);
    short.append_raw("./c/../d");
    assert_eq!(text(&short), "d");
}

use fimo_utils::context::{DependencySource, ModulePath, PathText, ResourceData, ResourceMap};
use fimo_utils::dyn_arc::{DynArc, DynArcCaster};
use fimo_utils::module::{features_satisfied, require_features, LoaderManifest, ModuleObjCaster};
use fimo_utils::module_error::{Error, ErrorKind};
use fimo_utils::task::{TaskCompletionStatus, WorkerId};

#[test]
fn error_kinds_and_payloads() {
    let simple: Error<&str> = Error::from(ErrorKind::NotFound);
    assert_eq!(simple.kind(), ErrorKind::NotFound);
    assert_eq!(simple.kind_message(), Some("entity not found"));
    assert_eq!(simple.into_inner(), None);
    let custom = Error::new(ErrorKind::Unknown, "oh no!");
    assert_eq!(custom.kind(), ErrorKind::Unknown);
    assert_eq!(custom.kind_message(), None);
    assert_eq!(custom.into_inner(), Some("oh no!"));
    assert_eq!(ErrorKind::Cancelled.code(), 1);
    assert_eq!(ErrorKind::Unauthenticated.code(), 16);
    assert_eq!(ErrorKind::DeadlineExceeded.as_str(), "operation deadline exceeded");
    assert_eq!(ErrorKind::FailedPrecondition.as_str(), "precondition failed");
}

#[test]
fn resources_depend_on_each_other() {
    let mut map: ResourceMap<&str, &str> = ResourceMap::new();
    let root = map.root();
    let module = map.add_module("libmod").ok().unwrap();
    assert_ne!(module, root);
    let a = map.add_interface("a", module).ok().unwrap();
    let b = map.add_interface("b", module).ok().unwrap();
    assert_eq!(*map.get_interface(a).ok().unwrap(), "a");
    assert_eq!(*map.get_module(module).ok().unwrap(), "libmod");
    assert!(map.add_interface_dependency(a, b).is_ok());
    assert!(map.is_acyclic());

    let e = map.remove_interface(a).err().unwrap();
    assert_eq!(e.kind(), ErrorKind::FailedPrecondition);
    let e = map.remove_module(module).err().unwrap();
    assert_eq!(e.kind(), ErrorKind::FailedPrecondition);
    assert!(map.remove_interface(b).is_ok());
    assert!(map.remove_interface(a).is_ok());
    assert!(map.remove_module(module).is_ok());
    assert_eq!(map.get_module(module).err().unwrap().kind(), ErrorKind::NotFound);
}

#[test]
fn lookups_report_the_kind_of_failure() {
    let mut map: ResourceMap<u8, u8> = ResourceMap::new();
    let module = map.add_module(1).ok().unwrap();
    let iface = map.add_interface(2, module).ok().unwrap();
    assert_eq!(map.get_interface(module).err().unwrap().kind(), ErrorKind::FailedPrecondition);
    assert_eq!(map.get_module(iface).err().unwrap().kind(), ErrorKind::FailedPrecondition);
    assert_eq!(map.get_interface(12345).err().unwrap().kind(), ErrorKind::NotFound);
    assert_eq!(map.add_interface(3, iface).err().unwrap().kind(), ErrorKind::FailedPrecondition);
    assert_eq!(map.add_interface_dependency(iface, module).err().unwrap().kind(), ErrorKind::FailedPrecondition);
    assert_eq!(map.remove_interface(map.root()).err().unwrap().kind(), ErrorKind::FailedPrecondition);
}

#[test]
fn cleanup_leaves_only_the_root() {
    let mut map: ResourceMap<u32, u32> = ResourceMap::new();
    let m1 = map.add_module(1).ok().unwrap();
    let m2 = map.add_module(2).ok().unwrap();
    let i1 = map.add_interface(10, m1).ok().unwrap();
    let i2 = map.add_interface(20, m2).ok().unwrap();
    let i3 = map.add_interface(30, m2).ok().unwrap();
    map.add_interface_dependency(i1, i2).ok().unwrap();
    map.add_interface_dependency(i2, i3).ok().unwrap();
    assert!(map.is_acyclic());
    map.cleanup_resources();
    for id in [m1, m2, i1, i2, i3] {
        assert_eq!(map.get_interface(id).err().unwrap().kind(), ErrorKind::NotFound);
    }
    assert!(map.is_acyclic());
}

#[test]
fn cleanup_keeps_a_dependency_cycle() {
    let mut map: ResourceMap<u32, u32> = ResourceMap::new();
    let m = map.add_module(1).ok().unwrap();
    let a = map.add_interface(10, m).ok().unwrap();
    let b = map.add_interface(20, m).ok().unwrap();
    let c = map.add_interface(30, m).ok().unwrap();
    map.add_interface_dependency(a, b).ok().unwrap();
    map.add_interface_dependency(b, a).ok().unwrap();
    assert!(!map.is_acyclic());
    map.cleanup_resources();
    assert!(map.get_interface(a).is_ok());
    assert!(map.get_interface(b).is_ok());
    assert!(map.get_module(m).is_ok());
    assert!(map.get_interface(c).is_err());
}

#[derive(Clone, Copy, PartialEq, Debug)]
struct Tag(u8);
impl DynArcCaster<u64> for Tag {}

#[test]
fn dyn_arc_shares_its_value() {
    let a = DynArc::new(42u64, Tag(1));
    assert_eq!(*a.as_ref(), 42);
    assert_eq!(DynArc::strong_count(&a), 1);
    let b = a.clone();
    assert_eq!(DynArc::strong_count(&a), 2);
    assert!(DynArc::ptr_eq(&a, &b));
    assert_eq!(DynArc::weak_count(&a), 0);
    let c = DynArc::new(42u64, Tag(1));
    assert!(!DynArc::ptr_eq(&a, &c));
    let (inner, tag) = DynArc::into_inner(b);
    assert_eq!(*inner, 42);
    assert_eq!(tag, Tag(1));
    let d = DynArc::from_inner((inner, Tag(2)));
    assert_eq!(*d.as_ref(), 42);
}

#[test]
fn plain_module_data() {
    static VTABLE: u32 = 7;
    let caster = ModuleObjCaster::new(&VTABLE);
    assert_eq!(*caster.vtable(), 7);
    let m = LoaderManifest::V0 { library_path: "lib.so".into(), compiler_version: "1.0".into() };
    assert_eq!(m.clone(), m);
    assert_eq!(TaskCompletionStatus::Completed(3), TaskCompletionStatus::Completed(3));
    assert_ne!(TaskCompletionStatus::<u8>::Pending, TaskCompletionStatus::Aborted);
    assert_eq!(WorkerId(3), WorkerId(3));
}

#[test]
fn get_modules_lists_each_module_once() {
    let mut map: ResourceMap<&str, &str> = ResourceMap::new();
    assert!(map.get_modules().is_empty());
    let m1 = map.add_module("liba").ok().unwrap();
    let m2 = map.add_module("libb").ok().unwrap();
    map.add_interface("a", m1).ok().unwrap();
    let mut modules: Vec<&str> = map.get_modules().into_iter().copied().collect();
    modules.sort();
    assert_eq!(modules, vec!["liba", "libb"]);
    assert!(map.remove_module(m2).is_ok());
    assert_eq!(map.get_modules(), vec![&"liba"]);
}

#[test]
fn loading_a_module_registers_interfaces_and_dependencies() {
    let mut map: ResourceMap<&str, &str> = ResourceMap::new();
    let base = map.add_module("libbase").ok().unwrap();
    let log = map.add_interface("log", base).ok().unwrap();

    let interfaces = vec![
        ("net", vec![DependencySource::Present(log)], vec![DependencySource::Missing]),
        ("http", vec![DependencySource::Earlier(0)], vec![DependencySource::Present(log)]),
    ];
    let (module, ids) = map.load_module_resources("libweb", interfaces).ok().unwrap();
    assert_eq!(ids.len(), 2);
    assert_eq!(*map.get_module(module).ok().unwrap(), "libweb");
    assert_eq!(*map.get_interface(ids[0]).ok().unwrap(), "net");
    assert_eq!(*map.get_interface(ids[1]).ok().unwrap(), "http");
    assert!(map.is_acyclic());
    // `log` is used by both new interfaces, `net` by `http`.
    assert_eq!(map.remove_interface(log).err().unwrap().kind(), ErrorKind::FailedPrecondition);
    assert_eq!(map.remove_interface(ids[0]).err().unwrap().kind(), ErrorKind::FailedPrecondition);
    assert!(map.remove_interface(ids[1]).is_ok());
    assert!(map.remove_interface(ids[0]).is_ok());
    assert!(map.remove_interface(log).is_ok());
    assert!(map.remove_module(module).is_ok());
}

#[test]
fn loading_fails_on_a_missing_required_dependency() {
    let mut map: ResourceMap<&str, &str> = ResourceMap::new();
    let base = map.add_module("libbase").ok().unwrap();
    let interfaces = vec![
        ("a", vec![], vec![]),
        ("b", vec![DependencySource::Earlier(1)], vec![]),
    ];
    let e = map.load_module_resources("libx", interfaces).err().unwrap();
    assert_eq!(e.kind(), ErrorKind::NotFound);
    let e = map.load_module_resources("liby", vec![("c", vec![DependencySource::Present(base)], vec![])]).err().unwrap();
    assert_eq!(e.kind(), ErrorKind::NotFound);
    let e = map.load_module_resources("libz", vec![("d", vec![DependencySource::Missing], vec![])]).err().unwrap();
    assert_eq!(e.kind(), ErrorKind::NotFound);
    // nothing was added
    let mut modules: Vec<&str> = map.get_modules().into_iter().copied().collect();
    modules.sort();
    assert_eq!(modules, vec!["libbase"]);
}

#[test]
fn feature_checks() {
    let enabled = vec![String::from("tls"), String::from("log")];
    assert!(features_satisfied(&[String::from("log")], &enabled));
    assert!(features_satisfied(&[], &enabled));
    assert!(!features_satisfied(&[String::from("log"), String::from("gz")], &enabled));
    assert!(require_features(&[String::from("tls")], &enabled).is_ok());
    assert!(require_features(&[String::from("gz")], &enabled).is_ok());
}

#[test]
fn a_dependency_back_along_a_path_makes_a_cycle() {
    let mut map: ResourceMap<&str, &str> = ResourceMap::new();
    let module = map.add_module("lib").ok().unwrap();
    let a = map.add_interface("a", module).ok().unwrap();
    let b = map.add_interface("b", module).ok().unwrap();
    let c = map.add_interface("c", module).ok().unwrap();
    map.add_interface_dependency(a, b).ok().unwrap();
    map.add_interface_dependency(b, c).ok().unwrap();
    assert!(map.is_acyclic());
    map.add_interface_dependency(c, a).ok().unwrap();
    assert!(!map.is_acyclic());

    // cleanup keeps the cycle and what reaches it, and drops the rest
    let lone = map.add_module("lone").ok().unwrap();
    map.cleanup_resources();
    assert!(map.get_interface(a).is_ok());
    assert!(map.get_interface(b).is_ok());
    assert!(map.get_interface(c).is_ok());
    assert!(map.get_module(module).is_ok());
    assert_eq!(map.get_module(lone).err().unwrap().kind(), ErrorKind::NotFound);
}

struct Lib {
    root: String,
}

impl ModulePath for Lib {
    // Specification item of the trait; it is never called at run time.
    fn spec_root_path(&self) -> PathText {
        unreachable!()
    }

    fn root_path(&self) -> &str {
        &self.root
    }
}

#[test]
fn modules_are_found_by_path() {
    let mut map: ResourceMap<&str, Lib> = ResourceMap::new();
    assert!(map.get_module_by_path("/mods/a").is_none());
    let a = map.add_module(Lib { root: String::from("/mods/a") }).ok().unwrap();
    let b = map.add_module(Lib { root: String::from("/mods/b") }).ok().unwrap();
    let (id, m) = map.get_module_by_path("/mods/b").unwrap();
    assert_eq!(id, b);
    assert_eq!(m.root_path(), "/mods/b");
    assert_eq!(map.get_module_by_path("/mods/a").unwrap().0, a);
    assert!(map.get_module_by_path("/mods/c").is_none());
    assert!(map.remove_module(a).is_ok());
    assert!(map.get_module_by_path("/mods/a").is_none());
}

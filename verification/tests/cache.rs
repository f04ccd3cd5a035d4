use elba::package::manifest::{DepReq, Manifest, PkgGitSpecifier};
use elba::package::resolution::{DirectRes, IndexRes, Url};
use elba::package::version::{Constraint, Version};
use elba::package::{Checksum, ChecksumFmt, GitTag, Name, PackageId, Resolution, Summary};
use elba::retrieve::cache::{
    digest_hex, hash_contents, package_dir_name, seal_of, Action, Build, Cache, CacheMeta, Event,
    FetchState, HashSource, IndexState, ManifestFile, Source, SrcPath,
};
use elba::util::errors::ErrorKind;
use sha2::Digest;
use std::collections::HashSet;

fn url(text: &str) -> Url {
    Url::parse(text).unwrap()
}

fn sha256_hex(text: &str) -> String {
    let mut out = String::new();
    for b in sha2::Sha256::digest(text.as_bytes()) {
        out.push_str(&format!("{:02x}", b));
    }
    out
}

fn cache() -> Cache {
    Cache::from_disk("/cache".to_string(), IndexRes { url: url("https://index.example.com/") })
}

fn name() -> Name {
    Name::new("abc".to_string(), "def".to_string())
}

fn dir() -> DirectRes {
    DirectRes::Dir { url: "/home/me/project".to_string() }
}

fn git() -> DirectRes {
    DirectRes::Git {
        repo: url("https://github.com/super/cool"),
        tag: PkgGitSpecifier::Branch("master".to_string()),
    }
}

fn tar() -> DirectRes {
    DirectRes::Tar {
        url: url("https://example.com/a.tar.gz"),
        cksum: Checksum::new(ChecksumFmt::Sha512, "beef".to_string()),
    }
}

fn pkg() -> PackageId {
    PackageId::new(name(), Version::new(1, 2, 3), Resolution::Dir { url: url("file:///tmp/x") })
}

fn node(id: &str, sum: &str) -> Summary<PackageId> {
    Summary::new(
        PackageId::from_str(id).unwrap(),
        Checksum::new(ChecksumFmt::Sha512, sum.to_string()),
        vec![],
    )
}

/// A disk with locks, as far as a request looks at it.
struct World {
    paths: HashSet<String>,
    held: HashSet<String>,
    transport_up: bool,
    disk_up: bool,
    retrievals: usize,
}

impl World {
    fn new() -> World {
        World {
            paths: HashSet::new(),
            held: HashSet::new(),
            transport_up: true,
            disk_up: true,
            retrievals: 0,
        }
    }

    fn answer(&mut self, action: &Action) -> Option<Event> {
        match action {
            Action::Probe { path } => {
                Some(if self.paths.contains(path) { Event::Found } else { Event::NotFound })
            }
            Action::Lock { path } => {
                if self.held.insert(path.clone()) {
                    self.paths.insert(path.clone());
                    Some(Event::LockAcquired)
                } else {
                    Some(Event::LockFailed)
                }
            }
            Action::Retrieve { .. } => {
                self.retrievals += 1;
                Some(if self.transport_up { Event::Retrieved } else { Event::RetrieveFailed })
            }
            Action::Seal { path } => {
                if self.disk_up {
                    self.paths.insert(path.clone());
                    Some(Event::Sealed)
                } else {
                    Some(Event::SealFailed)
                }
            }
            Action::Remove { path } => {
                if self.disk_up {
                    let below = format!("{}/", path);
                    self.paths.retain(|p| p != path && !p.starts_with(&below));
                    Some(Event::Removed)
                } else {
                    Some(Event::RemoveFailed)
                }
            }
            Action::Load { .. } => Some(Event::Loaded),
            Action::Done { .. } | Action::Fail { .. } | Action::Skip => None,
        }
    }

    fn release(&mut self, path: &str) {
        self.held.remove(path);
    }

    fn run(&mut self, mut state: FetchState) -> FetchState {
        while let Some(event) = self.answer(&state.action()) {
            state = state.next(event);
        }
        assert!(state.is_final());
        state
    }
}

fn framed(piece: &[u8]) -> Vec<u8> {
    let mut out = (piece.len() as u64).to_le_bytes().to_vec();
    out.extend_from_slice(piece);
    out
}

fn sha256_hex_of(bytes: &[u8]) -> String {
    let mut out = String::new();
    for b in sha2::Sha256::digest(bytes) {
        out.push_str(&format!("{:02x}", b));
    }
    out
}

fn file(path: &str, bytes: &[u8]) -> (String, Vec<u8>) {
    (path.to_string(), bytes.to_vec())
}

#[test]
fn digest_hex_is_sha256_in_hexadecimal() {
    assert_eq!(
        digest_hex(""),
        "e3b0c44298fc1c149afbf4c8996fb92427ae41e4649b934ca495991b7852b855"
    );
    assert_eq!(
        digest_hex("abc"),
        "ba7816bf8f01cfea414140de5dae2223b00361a396177a9cb410ff61f20015ad"
    );
    assert_eq!(digest_hex("grüße"), sha256_hex("grüße"));
}

#[test]
fn package_dir_name_joins_group_name_and_digest() {
    assert_eq!(package_dir_name(&name(), "00ff"), "abc_def-00ff");
}

#[test]
fn get_src_dir_hashes_name_and_locator() {
    let expected = format!("abc_def-{}", sha256_hex("abc/defdir+/home/me/project"));
    assert_eq!(Cache::get_src_dir(&name(), &dir(), None), expected);
    let expected =
        format!("abc_def-{}", sha256_hex("abc/defgit+https://github.com/super/cool#branch=master"));
    assert_eq!(Cache::get_src_dir(&name(), &git(), None), expected);
}

#[test]
fn get_src_dir_hashes_the_version_of_an_archive_only() {
    let v = Version::new(1, 2, 3);
    let w = Version::new(1, 2, 4);
    let locator = "tar+https://example.com/a.tar.gz#sha512:beef";
    assert_eq!(
        Cache::get_src_dir(&name(), &tar(), Some(&v)),
        format!("abc_def-{}", sha256_hex(&format!("abc/def{}1.2.3", locator)))
    );
    assert_eq!(
        Cache::get_src_dir(&name(), &tar(), None),
        format!("abc_def-{}", sha256_hex(&format!("abc/def{}", locator)))
    );
    assert_ne!(
        Cache::get_src_dir(&name(), &tar(), Some(&v)),
        Cache::get_src_dir(&name(), &tar(), Some(&w))
    );
    assert_eq!(
        Cache::get_src_dir(&name(), &git(), Some(&v)),
        Cache::get_src_dir(&name(), &git(), Some(&w))
    );
    assert_eq!(
        Cache::get_src_dir(&name(), &git(), Some(&v)),
        Cache::get_src_dir(&name(), &git(), None)
    );
}

#[test]
fn get_src_dir_is_the_same_for_the_same_request_and_changes_with_each_field() {
    let v = Version::new(1, 2, 3);
    let base = Cache::get_src_dir(&name(), &tar(), Some(&v));
    assert_eq!(base, Cache::get_src_dir(&name(), &tar(), Some(&v)));
    let other_name = Name::new("abc".to_string(), "deg".to_string());
    assert_ne!(base, Cache::get_src_dir(&other_name, &tar(), Some(&v)));
    let other_group = Name::new("abd".to_string(), "def".to_string());
    assert_ne!(base, Cache::get_src_dir(&other_group, &tar(), Some(&v)));
    let other_url = DirectRes::Tar {
        url: url("https://example.com/b.tar.gz"),
        cksum: Checksum::new(ChecksumFmt::Sha512, "beef".to_string()),
    };
    assert_ne!(base, Cache::get_src_dir(&name(), &other_url, Some(&v)));
    let other_sum = DirectRes::Tar {
        url: url("https://example.com/a.tar.gz"),
        cksum: Checksum::new(ChecksumFmt::Sha512, "beee".to_string()),
    };
    assert_ne!(base, Cache::get_src_dir(&name(), &other_sum, Some(&v)));
    assert_ne!(base, Cache::get_src_dir(&name(), &tar(), Some(&Version::new(1, 2, 4))));
    let other_tag = DirectRes::Git {
        repo: url("https://github.com/super/cool"),
        tag: PkgGitSpecifier::Tag("master".to_string()),
    };
    assert_ne!(
        Cache::get_src_dir(&name(), &git(), None),
        Cache::get_src_dir(&name(), &other_tag, None)
    );
}

#[test]
fn src_key_runs_name_locator_and_version_together() {
    let v = Version::new(1, 2, 3);
    assert_eq!(Cache::src_key(&name(), &dir(), Some(&v)), "abc/defdir+/home/me/project");
    assert_eq!(
        Cache::src_key(&name(), &git(), Some(&v)),
        "abc/defgit+https://github.com/super/cool#branch=master"
    );
    assert_eq!(
        Cache::src_key(&name(), &tar(), Some(&v)),
        "abc/deftar+https://example.com/a.tar.gz#sha512:beef1.2.3"
    );
    assert_eq!(
        Cache::src_key(&name(), &tar(), None),
        "abc/deftar+https://example.com/a.tar.gz#sha512:beef"
    );
}

#[test]
fn src_key_has_no_mark_between_checksum_and_version() {
    let short = DirectRes::Tar {
        url: url("https://example.com/a.tar.gz"),
        cksum: Checksum::new(ChecksumFmt::Sha512, "beef".to_string()),
    };
    let long = DirectRes::Tar {
        url: url("https://example.com/a.tar.gz"),
        cksum: Checksum::new(ChecksumFmt::Sha512, "beef1".to_string()),
    };
    assert_eq!(
        Cache::src_key(&name(), &short, Some(&Version::new(12, 0, 0))),
        Cache::src_key(&name(), &long, Some(&Version::new(2, 0, 0)))
    );
    assert_eq!(
        Cache::get_src_dir(&name(), &short, Some(&Version::new(12, 0, 0))),
        Cache::get_src_dir(&name(), &long, Some(&Version::new(2, 0, 0)))
    );
}

#[test]
fn get_index_dir_hashes_the_locator() {
    assert_eq!(
        Cache::get_index_dir(&git()),
        sha256_hex("git+https://github.com/super/cool#branch=master")
    );
    assert_eq!(Cache::get_index_dir(&git()).len(), 64);
}

#[test]
fn cache_lays_out_three_directories() {
    let c = cache();
    assert_eq!(c.location(), "/cache");
    assert_eq!(c.def_index().url.as_str(), "https://index.example.com/");
    assert_eq!(c.layout(), vec!["/cache/src", "/cache/build", "/cache/indices"]);
}

#[test]
fn cache_paths_stand_below_their_directories() {
    let c = cache();
    let v = Version::new(1, 2, 3);
    assert_eq!(
        c.src_path(&name(), &tar(), Some(&v)),
        format!("/cache/src/{}", Cache::get_src_dir(&name(), &tar(), Some(&v)))
    );
    assert_eq!(c.index_path(&git()), format!("/cache/indices/{}", Cache::get_index_dir(&git())));
}

#[test]
fn check_of_a_directory_is_its_own_path() {
    let c = cache();
    assert_eq!(c.check_probe(&name(), &dir(), None), None);
    assert_eq!(c.check(&name(), &dir(), None, false), Some("/home/me/project".to_string()));
    assert_eq!(c.check(&name(), &dir(), None, true), Some("/home/me/project".to_string()));
    let v = Version::new(1, 0, 0);
    assert_eq!(c.check(&name(), &dir(), Some(&v), false), Some("/home/me/project".to_string()));
}

#[test]
fn check_of_anything_else_goes_by_the_seal() {
    let c = cache();
    let path = c.src_path(&name(), &git(), None);
    assert_eq!(c.check_probe(&name(), &git(), None), Some(format!("{}/.sealed", path)));
    assert_eq!(c.check_probe(&name(), &git(), None), Some(seal_of(&path)));
    assert_eq!(c.check(&name(), &git(), None, true), Some(path));
    assert_eq!(c.check(&name(), &git(), None, false), None);
}

#[test]
fn load_of_a_directory_locks_it_where_it_is() {
    let c = cache();
    let mut world = World::new();
    let start = c.load(&pkg(), &dir(), None);
    assert_eq!(start, FetchState::Cached { path: "/home/me/project".to_string() });
    assert_eq!(start.action(), Action::Lock { path: "/home/me/project".to_string() });
    let end = world.run(start);
    assert_eq!(end, FetchState::Populated { path: "/home/me/project".to_string() });
    assert_eq!(end.action(), Action::Done { path: "/home/me/project".to_string() });
    assert_eq!(world.retrievals, 0);
    assert!(!world.paths.contains("/home/me/project/.sealed"));
}

#[test]
fn load_fetches_what_is_absent_under_a_lock_and_seals_it() {
    let c = cache();
    let path = c.src_path(pkg().name(), &git(), None);
    let seal = seal_of(&path);
    let s = c.load(&pkg(), &git(), None);
    assert_eq!(s, FetchState::Unknown { path: path.clone() });
    assert_eq!(s.action(), Action::Probe { path: seal.clone() });
    let s = s.next(Event::NotFound);
    assert_eq!(s, FetchState::Absent { path: path.clone() });
    assert_eq!(s.action(), Action::Lock { path: path.clone() });
    let s = s.next(Event::LockAcquired);
    assert_eq!(s, FetchState::Locked { path: path.clone() });
    assert_eq!(s.action(), Action::Retrieve { path: path.clone() });
    assert!(!s.is_final());
    let s = s.next(Event::Retrieved);
    assert_eq!(s, FetchState::Filled { path: path.clone() });
    assert_eq!(s.action(), Action::Seal { path: seal });
    assert!(!s.is_final());
    let s = s.next(Event::Sealed);
    assert_eq!(s, FetchState::Populated { path: path.clone() });
    assert_eq!(s.action(), Action::Done { path });
    assert!(s.is_final());
}

#[test]
fn load_of_what_is_cached_fetches_nothing() {
    let c = cache();
    let path = c.src_path(pkg().name(), &git(), None);
    let s = c.load(&pkg(), &git(), None).next(Event::Found);
    assert_eq!(s, FetchState::Cached { path: path.clone() });
    let s = s.next(Event::LockAcquired);
    assert_eq!(s, FetchState::Populated { path });
}

#[test]
fn load_fails_where_the_lock_fails() {
    let c = cache();
    let lock = FetchState::Failed { error: ErrorKind::LockAcquisitionFailure };
    let s = c.load(&pkg(), &git(), None).next(Event::Found).next(Event::LockFailed);
    assert_eq!(s, lock);
    assert_eq!(s.action(), Action::Fail { error: ErrorKind::LockAcquisitionFailure });
    assert!(s.is_final());
    let s = c.load(&pkg(), &git(), None).next(Event::NotFound).next(Event::LockFailed);
    assert_eq!(s, lock);
}

#[test]
fn load_removes_what_it_could_not_fill() {
    let c = cache();
    let path = c.src_path(pkg().name(), &git(), None);
    let locked = || c.load(&pkg(), &git(), None).next(Event::NotFound).next(Event::LockAcquired);
    let s = locked().next(Event::RetrieveFailed);
    assert_eq!(s, FetchState::Failing { path: path.clone() });
    assert_eq!(s.action(), Action::Remove { path: path.clone() });
    assert!(!s.is_final());
    let s = s.next(Event::Removed);
    assert_eq!(s, FetchState::Failed { error: ErrorKind::FetchFailure });
    assert_eq!(s.action(), Action::Fail { error: ErrorKind::FetchFailure });
    assert_eq!(s.next(Event::Retrieved), FetchState::Failed { error: ErrorKind::FetchFailure });
    let s = locked().next(Event::RetrieveFailed).next(Event::RemoveFailed);
    assert_eq!(s, FetchState::Failed { error: ErrorKind::FetchFailure });
    let s = locked().next(Event::Retrieved).next(Event::SealFailed);
    assert_eq!(s, FetchState::Failing { path });
    assert_eq!(s.next(Event::Removed), FetchState::Failed { error: ErrorKind::FetchFailure });
}

#[test]
fn load_passes_over_answers_to_what_was_not_asked() {
    let c = cache();
    let path = c.src_path(pkg().name(), &git(), None);
    let s = c.load(&pkg(), &git(), None);
    let s = s.next(Event::Retrieved).next(Event::LockAcquired).next(Event::Sealed);
    assert_eq!(s, FetchState::Unknown { path: path.clone() });
    let s = s.next(Event::NotFound).next(Event::Found).next(Event::Retrieved);
    assert_eq!(s, FetchState::Absent { path: path.clone() });
    let s = s.next(Event::LockAcquired).next(Event::LockFailed).next(Event::Sealed);
    assert_eq!(s, FetchState::Locked { path: path.clone() });
    let s = s.next(Event::Retrieved).next(Event::RetrieveFailed).next(Event::Removed);
    assert_eq!(s, FetchState::Filled { path: path.clone() });
    let s = s.next(Event::Sealed).next(Event::SealFailed).next(Event::LockFailed);
    assert_eq!(s, FetchState::Populated { path: path.clone() });
    let s = c.load(&pkg(), &git(), None).next(Event::NotFound).next(Event::LockAcquired);
    let s = s.next(Event::RetrieveFailed).next(Event::Retrieved).next(Event::Sealed);
    assert_eq!(s, FetchState::Failing { path });
}

#[test]
fn two_loads_in_a_row_retrieve_once() {
    let c = cache();
    let mut world = World::new();
    let first = world.run(c.load(&pkg(), &git(), None));
    let path = c.src_path(pkg().name(), &git(), None);
    assert_eq!(first, FetchState::Populated { path: path.clone() });
    assert_eq!(world.retrievals, 1);
    assert!(world.paths.contains(&seal_of(&path)));
    world.release(&path);
    let second = world.run(c.load(&pkg(), &git(), None));
    assert_eq!(second, FetchState::Populated { path });
    assert_eq!(world.retrievals, 1);
}

#[test]
fn load_after_a_failed_retrieval_retrieves_anew() {
    let c = cache();
    let mut world = World::new();
    world.transport_up = false;
    let first = world.run(c.load(&pkg(), &git(), None));
    assert_eq!(first, FetchState::Failed { error: ErrorKind::FetchFailure });
    let path = c.src_path(pkg().name(), &git(), None);
    assert!(!world.paths.contains(&path));
    assert!(!world.paths.contains(&seal_of(&path)));
    let sealed = world.paths.contains(&c.check_probe(&name(), &git(), None).unwrap());
    assert_eq!(c.check(&name(), &git(), None, sealed), None);
    world.release(&path);
    world.transport_up = true;
    let second = world.run(c.load(&pkg(), &git(), None));
    assert_eq!(second, FetchState::Populated { path });
    assert_eq!(world.retrievals, 2);
}

#[test]
fn load_after_a_removal_that_failed_retrieves_anew() {
    let c = cache();
    let mut world = World::new();
    world.transport_up = false;
    world.disk_up = false;
    let first = world.run(c.load(&pkg(), &git(), None));
    assert_eq!(first, FetchState::Failed { error: ErrorKind::FetchFailure });
    let path = c.src_path(pkg().name(), &git(), None);
    assert!(world.paths.contains(&path));
    let sealed = world.paths.contains(&c.check_probe(&name(), &git(), None).unwrap());
    assert_eq!(c.check(&name(), &git(), None, sealed), None);
    world.release(&path);
    world.transport_up = true;
    world.disk_up = true;
    let second = world.run(c.load(&pkg(), &git(), None));
    assert_eq!(second, FetchState::Populated { path });
    assert_eq!(world.retrievals, 2);
}

#[test]
fn check_finds_nothing_while_a_source_is_being_brought() {
    let c = cache();
    let mut world = World::new();
    let probe = c.check_probe(&name(), &git(), None).unwrap();
    let mut state = c.load(&pkg(), &git(), None);
    while !state.is_final() {
        let sealed = world.paths.contains(&probe);
        assert_eq!(c.check(&name(), &git(), None, sealed), None, "in {:?}", state);
        let event = world.answer(&state.action()).unwrap();
        state = state.next(event);
    }
    let sealed = world.paths.contains(&probe);
    assert_eq!(
        c.check(&name(), &git(), None, sealed),
        Some(c.src_path(&name(), &git(), None))
    );
}

#[test]
fn two_loads_at_once_retrieve_once() {
    let c = cache();
    let path = c.src_path(pkg().name(), &git(), None);
    let probe = c.check_probe(&name(), &git(), None).unwrap();
    for schedule in 0..1024u32 {
        let mut world = World::new();
        let mut a = c.load(&pkg(), &git(), None);
        let mut b = c.load(&pkg(), &git(), None);
        let mut turn = 0;
        let populated = FetchState::Populated { path: path.clone() };
        while !(a.is_final() && b.is_final()) {
            let pick_a = (schedule >> turn) & 1 == 0;
            turn += 1;
            if (pick_a && !a.is_final()) || b.is_final() {
                let event = world.answer(&a.action()).unwrap();
                a = a.next(event);
            } else {
                let event = world.answer(&b.action()).unwrap();
                b = b.next(event);
            }
            let sealed = world.paths.contains(&probe);
            if c.check(&name(), &git(), None, sealed).is_some() {
                assert!(a == populated || b == populated, "schedule {}", schedule);
            }
        }
        assert_eq!(world.retrievals, 1, "schedule {}", schedule);
        let refused = FetchState::Failed { error: ErrorKind::LockAcquisitionFailure };
        assert!(
            (a == populated && b == refused) || (a == refused && b == populated),
            "schedule {}",
            schedule
        );
    }
}

#[test]
fn build_hash_is_sha256_of_the_nodes_in_order() {
    let a = "abc/def 1.2.3 dir+file:///tmp/x";
    let b = "abc/dep 0.1.0 index+https://index.example.com/";
    let tree = vec![node(a, "aa"), node(b, "bb")];
    let build = Build::new(node(a, "aa"), &tree);
    let key = format!("{}1.2.3sha512:aa{}0.1.0sha512:bb", a, b);
    assert_eq!(build.hash, sha256_hex(&key));
    assert_eq!(build.summary.id().to_string(), a);
    assert_eq!(build.dir_name(), format!("abc_def-{}", sha256_hex(&key)));
}

#[test]
fn build_key_runs_the_nodes_together() {
    let a = "abc/def 1.2.3 dir+file:///tmp/x";
    let b = "abc/dep 0.1.0-rc.1 index+https://index.example.com/";
    assert_eq!(Build::key(&[]), "");
    assert_eq!(
        Build::key(&[node(a, "aa"), node(b, "bb")]),
        format!("{}1.2.3sha512:aa{}0.1.0-rc.1sha512:bb", a, b)
    );
}

#[test]
fn build_hash_of_nothing_is_the_digest_of_nothing() {
    let build = Build::new(node("abc/def 1.2.3 dir+file:///tmp/x", "aa"), &[]);
    assert_eq!(build.hash, sha256_hex(""));
}

#[test]
fn build_hash_changes_with_the_checksum_of_any_node() {
    let a = "abc/def 1.2.3 dir+file:///tmp/x";
    let b = "abc/dep 0.1.0 index+https://index.example.com/";
    let c = "abc/deep 0.3.0 index+https://index.example.com/";
    let base = Build::new(node(a, "aa"), &[node(a, "aa"), node(b, "bb"), node(c, "cc")]);
    let same = Build::new(node(a, "aa"), &[node(a, "aa"), node(b, "bb"), node(c, "cc")]);
    assert_eq!(base.hash, same.hash);
    let deep = Build::new(node(a, "aa"), &[node(a, "aa"), node(b, "bb"), node(c, "cd")]);
    assert_ne!(base.hash, deep.hash);
    assert_ne!(base.dir_name(), deep.dir_name());
    let mid = Build::new(node(a, "aa"), &[node(a, "aa"), node(b, "b"), node(c, "cc")]);
    assert_ne!(base.hash, mid.hash);
    let order = Build::new(node(a, "aa"), &[node(a, "aa"), node(c, "cc"), node(b, "bb")]);
    assert_ne!(base.hash, order.hash);
}

#[test]
fn checkout_build_names_the_directory_of_the_build() {
    let c = cache();
    let a = "abc/def 1.2.3 dir+file:///tmp/x";
    let build = Build::new(node(a, "aa"), &[node(a, "aa")]);
    let dir_name = build.dir_name();
    assert_eq!(c.build_path(&build), format!("/cache/build/{}", dir_name));
    let binary = c.checkout_build(build, true).unwrap();
    assert_eq!(binary.binary_path, format!("/cache/build/{}", dir_name));
    assert_eq!(binary.build.dir_name(), dir_name);
}

#[test]
fn checkout_build_fails_without_the_lock() {
    let c = cache();
    let a = "abc/def 1.2.3 dir+file:///tmp/x";
    let build = Build::new(node(a, "aa"), &[node(a, "aa")]);
    let r = c.checkout_build(build, false);
    assert_eq!(r.err(), Some(ErrorKind::LockAcquisitionFailure));
}

fn manifest() -> Manifest {
    let mut dependencies = indexmap::IndexMap::new();
    dependencies.insert(
        Name::from_str("awesome/a").unwrap(),
        DepReq::Registry(Constraint::new(">= 1.0.0 < 2.0.0".to_string())),
    );
    dependencies.insert(
        Name::from_str("cool/b").unwrap(),
        DepReq::Git {
            git: url("https://github.com/super/cool"),
            spec: PkgGitSpecifier::Tag("v1.0.0".to_string()),
        },
    );
    dependencies.insert(
        Name::from_str("great/c").unwrap(),
        DepReq::Local { path: url("file://here/right/now") },
    );
    let mut dev_dependencies = indexmap::IndexMap::new();
    dev_dependencies.insert(
        Name::from_str("ayy/x").unwrap(),
        DepReq::Registry(Constraint::new("2.0".to_string())),
    );
    Manifest::new(
        Name::from_str("ring_ding/test").unwrap(),
        Version::parse("1.0.0").unwrap(),
        vec!["me".to_string()],
        Some("MIT".to_string()),
        dependencies,
        dev_dependencies,
    )
}

fn unresolved(name: &str, resolution: Resolution) -> PackageId {
    PackageId::new(Name::from_str(name).unwrap(), Version::new(0, 0, 0), resolution)
}

#[test]
fn cache_meta_lists_the_dependencies_in_order() {
    let def = IndexRes { url: url("https://index.example.com/") };
    let meta = CacheMeta::from_manifest(&manifest(), &def);
    assert_eq!(meta.version, Version::new(1, 0, 0));
    let entries: Vec<(&PackageId, &Constraint)> = meta.deps.iter().collect();
    assert_eq!(entries.len(), 3);
    let a = unresolved("awesome/a", Resolution::Index { url: def.url.clone() });
    assert_eq!(entries[0], (&a, &Constraint::new(">= 1.0.0 < 2.0.0".to_string())));
    let b = unresolved(
        "cool/b",
        Resolution::Git {
            repo: url("https://github.com/super/cool"),
            tag: GitTag::Tag("v1.0.0".to_string()),
        },
    );
    assert_eq!(entries[1], (&b, &Constraint::any()));
    let c = unresolved("great/c", Resolution::Dir { url: url("file://here/right/now") });
    assert_eq!(entries[2], (&c, &Constraint::any()));
}

#[test]
fn cache_meta_leaves_out_the_dev_dependencies() {
    let def = IndexRes { url: url("https://index.example.com/") };
    let meta = CacheMeta::from_manifest(&manifest(), &def);
    let x = unresolved("ayy/x", Resolution::Index { url: def.url.clone() });
    assert!(!meta.deps.contains_key(&x));
}

#[test]
fn cache_meta_of_no_dependencies_is_empty() {
    let def = IndexRes { url: url("https://index.example.com/") };
    let m = Manifest::new(
        Name::from_str("a/b").unwrap(),
        Version::new(0, 1, 0),
        vec![],
        None,
        indexmap::IndexMap::new(),
        indexmap::IndexMap::new(),
    );
    let meta = CacheMeta::from_manifest(&m, &def);
    assert!(meta.deps.is_empty());
    assert_eq!(meta.version, Version::new(0, 1, 0));
}

#[test]
fn checkout_source_reads_the_metadata_off_the_manifest() {
    let c = cache();
    let source = c
        .checkout_source(
            &dir(),
            "/home/me/project".to_string(),
            ManifestFile::Parsed(manifest()),
            "0123",
        )
        .unwrap();
    assert_eq!(source.path, SrcPath::Directory("/home/me/project".to_string()));
    assert_eq!(source.location, dir());
    assert_eq!(source.hash, "0123");
    assert_eq!(source.hash(), "0123");
    assert_eq!(source.meta.version, Version::new(1, 0, 0));
    assert_eq!(source.meta.deps.len(), 3);
    assert_eq!(source.manifest.name().as_str(), "ring_ding/test");
    let a = unresolved("awesome/a", Resolution::Index { url: url("https://index.example.com/") });
    assert!(source.meta.deps.contains_key(&a));
}

#[test]
fn checkout_source_of_a_directory_stays_at_its_path() {
    let c = cache();
    for _ in 0..2 {
        let mut world = World::new();
        let end = world.run(c.load(&pkg(), &dir(), None));
        let path = match end {
            FetchState::Populated { path } => path,
            other => panic!("{:?}", other),
        };
        assert_eq!(world.retrievals, 0);
        let file = ManifestFile::Parsed(manifest());
        let source = c.checkout_source(&dir(), path, file, "0123").unwrap();
        assert_eq!(source.path, SrcPath::Directory("/home/me/project".to_string()));
    }
}

#[test]
fn checkout_source_fails_without_a_manifest() {
    let c = cache();
    let r = c.checkout_source(&git(), "/cache/src/x".to_string(), ManifestFile::Missing, "");
    assert_eq!(r.err(), Some(ErrorKind::MissingManifest));
    let r = c.checkout_source(&git(), "/cache/src/x".to_string(), ManifestFile::Invalid, "");
    assert_eq!(r.err(), Some(ErrorKind::InvalidManifest));
}

#[test]
fn manifest_path_is_the_file_at_the_root_of_the_checkout() {
    assert_eq!(Cache::manifest_path("/cache/src/x"), "/cache/src/x/Cargo.toml");
}

#[test]
fn content_hash_goes_by_the_kind_of_locator() {
    assert_eq!(tar().hash_source(), HashSource::Declared);
    assert_eq!(git().hash_source(), HashSource::CommitId);
    assert_eq!(dir().hash_source(), HashSource::Contents);
    let def = IndexRes { url: url("https://index.example.com/") };
    let make = |loc: DirectRes, observed: &str| {
        let meta = CacheMeta::from_manifest(&manifest(), &def);
        Source::new(manifest(), meta, loc, SrcPath::Directory("/x".to_string()), observed)
    };
    assert_eq!(make(tar(), "0123").hash(), "sha512:beef");
    assert_eq!(make(git(), "0123").hash(), "0123");
    assert_eq!(make(dir(), "4567").hash(), "4567");
}

#[test]
fn hash_contents_digests_each_file_with_its_path_and_length() {
    let files = vec![file("a", b"ab"), file("b/c", b""), file("d", b"c")];
    let mut input = Vec::new();
    for (path, bytes) in &files {
        input.extend(framed(path.as_bytes()));
        input.extend(framed(bytes));
    }
    assert_eq!(input[..8], [1, 0, 0, 0, 0, 0, 0, 0]);
    assert_eq!(hash_contents(&files), sha256_hex_of(&input));
    assert_eq!(hash_contents(&[]), sha256_hex(""));
    assert_eq!(hash_contents(&files).len(), 64);
}

#[test]
fn hash_contents_changes_with_every_change_of_the_files() {
    let base = hash_contents(&[file("a", &[1, 2]), file("b", &[3])]);
    assert_eq!(base, hash_contents(&[file("a", &[1, 2]), file("b", &[3])]));
    assert_ne!(base, hash_contents(&[file("a", &[1]), file("b", &[2, 3])]));
    assert_ne!(base, hash_contents(&[file("a", &[1, 2, 3]), file("b", &[])]));
    assert_ne!(base, hash_contents(&[file("a", &[1, 2]), file("c", &[3])]));
    assert_ne!(base, hash_contents(&[file("a", &[1, 2]), file("b", &[4])]));
    assert_ne!(base, hash_contents(&[file("a", &[1, 2])]));
    assert_ne!(base, hash_contents(&[file("b", &[3]), file("a", &[1, 2])]));
    assert_ne!(base, hash_contents(&[file("ab", &[1, 2, 3])]));
}

#[test]
fn index_of_a_directory_is_loaded_where_it_lies() {
    let c = cache();
    let s = c.index_start(&dir());
    assert_eq!(s, IndexState::Cached { path: "/home/me/project".to_string() });
    assert_eq!(s.action(), Action::Lock { path: "/home/me/project".to_string() });
    let s = s.next(Event::LockAcquired);
    assert_eq!(s, IndexState::Present { path: "/home/me/project".to_string() });
    assert_eq!(s.action(), Action::Load { path: "/home/me/project".to_string() });
    let s = s.next(Event::Loaded);
    assert_eq!(s, IndexState::Kept { path: "/home/me/project".to_string() });
    assert_eq!(s.action(), Action::Done { path: "/home/me/project".to_string() });
    assert!(s.is_final());
}

#[test]
fn index_from_elsewhere_is_fetched_if_absent() {
    let c = cache();
    let path = c.index_path(&git());
    let seal = seal_of(&path);
    let s = c.index_start(&git());
    assert_eq!(s, IndexState::Unknown { path: path.clone() });
    assert_eq!(s.action(), Action::Probe { path: seal.clone() });
    let found = c.index_start(&git()).next(Event::Found);
    assert_eq!(found, IndexState::Cached { path: path.clone() });
    assert_eq!(found.next(Event::LockAcquired), IndexState::Present { path: path.clone() });
    let s = s.next(Event::NotFound);
    assert_eq!(s, IndexState::Absent { path: path.clone() });
    assert_eq!(s.action(), Action::Lock { path: path.clone() });
    let s = s.next(Event::LockAcquired);
    assert_eq!(s, IndexState::Locked { path: path.clone() });
    assert_eq!(s.action(), Action::Retrieve { path: path.clone() });
    assert!(!s.is_final());
    let s = s.next(Event::Retrieved);
    assert_eq!(s, IndexState::Filled { path: path.clone() });
    assert_eq!(s.action(), Action::Seal { path: seal });
    let s = s.next(Event::Sealed);
    assert_eq!(s, IndexState::Present { path: path.clone() });
    let s = s.next(Event::Loaded);
    assert_eq!(s, IndexState::Kept { path });
}

#[test]
fn index_that_fails_is_skipped() {
    let c = cache();
    let path = c.index_path(&git());
    let s = c.index_start(&git()).next(Event::Found).next(Event::LockFailed);
    assert_eq!(s, IndexState::Skipped);
    assert_eq!(s.action(), Action::Skip);
    assert!(s.is_final());
    let s = c.index_start(&git()).next(Event::NotFound).next(Event::LockFailed);
    assert_eq!(s, IndexState::Skipped);
    let s = c.index_start(&dir()).next(Event::LockFailed);
    assert_eq!(s, IndexState::Skipped);
    let locked = || c.index_start(&git()).next(Event::NotFound).next(Event::LockAcquired);
    let s = locked().next(Event::RetrieveFailed);
    assert_eq!(s, IndexState::Failing { path: path.clone() });
    assert_eq!(s.action(), Action::Remove { path: path.clone() });
    assert_eq!(s.next(Event::Removed), IndexState::Skipped);
    let s = locked().next(Event::RetrieveFailed).next(Event::RemoveFailed);
    assert_eq!(s, IndexState::Skipped);
    let s = locked().next(Event::Retrieved).next(Event::SealFailed);
    assert_eq!(s, IndexState::Failing { path });
    let s = c.index_start(&dir()).next(Event::LockAcquired).next(Event::LoadFailed);
    assert_eq!(s, IndexState::Skipped);
    assert_eq!(s.next(Event::Loaded), IndexState::Skipped);
}

#[test]
fn get_indices_keeps_what_was_read_and_skips_the_rest() {
    let c = cache();
    let locators = vec![dir(), git(), tar()];
    let starts = c.get_indices(&locators);
    assert_eq!(starts.len(), 3);
    assert_eq!(starts[0], c.index_start(&dir()));
    assert_eq!(starts[1], c.index_start(&git()));
    assert_eq!(starts[2], c.index_start(&tar()));
    let mut ends = Vec::new();
    for (i, mut state) in starts.into_iter().enumerate() {
        let mut world = World::new();
        world.transport_up = i != 1;
        while let Some(event) = world.answer(&state.action()) {
            state = state.next(event);
        }
        ends.push(state);
    }
    let kept = Cache::kept_indices(&ends);
    assert_eq!(
        kept,
        vec![(0, "/home/me/project".to_string()), (2, c.index_path(&tar()))]
    );
    assert_eq!(Cache::kept_indices(&[]), vec![]);
}

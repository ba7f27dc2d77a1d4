use avalanche_installer::avalanchego::s3::{
    extract_filename, is_placeholder, store_retry_policy, needs_download, plugin_target, StoreOutcome, Sync, SyncAction, SyncEvent,
    SyncFailure, SyncRequest, SyncStage,
};
use avalanche_installer::retry::RetryPolicy;
use std::collections::BTreeSet;

fn request(overwrite: bool) -> SyncRequest {
    SyncRequest {
        overwrite,
        bucket: String::from("bucket"),
        binary_key: String::from("install/avalanchego"),
        target_binary_path: String::from("/data/avalanchego"),
        plugin_key_prefix: String::from("install/plugin"),
        target_plugin_dir: String::from("/data/plugins"),
    }
}

fn policy() -> RetryPolicy {
    store_retry_policy()
}

/// A store and a disk to run a synchronization against.
struct World {
    /// The keys that the store lists.
    listing: Vec<String>,
    /// The local files that exist.
    files: BTreeSet<String>,
    /// The number of calls of the store that fail before one succeeds.
    store_failures: usize,
    /// Whether the failures of the store are for good.
    fatal: bool,
    gets: Vec<(String, String, String)>,
    lists: usize,
    waits: Vec<u64>,
    dirs: Vec<String>,
    scratches: usize,
}

impl World {
    fn new(listing: &[&str], files: &[&str]) -> World {
        World {
            listing: listing.iter().map(|k| String::from(*k)).collect(),
            files: files.iter().map(|f| String::from(*f)).collect(),
            store_failures: 0,
            fatal: false,
            gets: Vec::new(),
            lists: 0,
            waits: Vec::new(),
            dirs: Vec::new(),
            scratches: 0,
        }
    }

    fn store(&mut self) -> StoreOutcome {
        if self.store_failures == 0 {
            StoreOutcome::Done
        } else if self.fatal {
            StoreOutcome::Fatal
        } else {
            self.store_failures -= 1;
            StoreOutcome::Retryable
        }
    }

    /// Runs `sync` to its end.
    fn run(&mut self, mut sync: Sync) -> Result<(), SyncFailure> {
        loop {
            let event = match sync.action() {
                SyncAction::Probe { path } => SyncEvent::Exists(self.files.contains(&path)),
                SyncAction::AllocateScratch { name_len } => {
                    assert_eq!(name_len, 15);
                    self.scratches += 1;
                    SyncEvent::Scratch(Some(format!("/tmp/scratch{}", self.scratches)))
                }
                SyncAction::Get { bucket, key, scratch } => {
                    self.gets.push((bucket, key, scratch));
                    SyncEvent::Fetched(self.store())
                }
                SyncAction::Sleep { secs } => {
                    self.waits.push(secs);
                    SyncEvent::Slept
                }
                SyncAction::Place { scratch, target, mode } => {
                    assert_eq!(mode, 0o777);
                    assert_eq!(scratch, format!("/tmp/scratch{}", self.scratches));
                    self.files.insert(target);
                    SyncEvent::Placed(true)
                }
                SyncAction::List { bucket, prefix } => {
                    assert_eq!(bucket, "bucket");
                    assert_eq!(prefix, "install/plugin");
                    self.lists += 1;
                    let outcome = self.store();
                    let keys = if outcome == StoreOutcome::Done { self.listing.clone() } else { Vec::new() };
                    SyncEvent::Listed { outcome, keys }
                }
                SyncAction::EnsureDir { path } => {
                    self.dirs.push(path);
                    SyncEvent::DirReady(true)
                }
                SyncAction::Finish => {
                    assert_eq!(sync.stage(), SyncStage::Finished);
                    return Ok(());
                }
                SyncAction::Fail { reason } => {
                    assert_eq!(sync.stage(), SyncStage::Failed(reason));
                    return Err(reason);
                }
            };
            sync = sync.advance(event);
        }
    }
}

#[test]
fn download_is_needed_for_missing_targets_and_on_overwrite() {
    assert!(needs_download(false, false));
    assert!(needs_download(false, true));
    assert!(needs_download(true, true));
    assert!(!needs_download(true, false));
}

#[test]
fn placeholders_are_the_names_of_the_plugin_directory() {
    assert!(is_placeholder("plugin"));
    assert!(is_placeholder("plugin/"));
    assert!(!is_placeholder("plugins"));
    assert!(!is_placeholder("myplugin"));
    assert!(!is_placeholder("evm"));
    assert!(!is_placeholder(""));
}

#[test]
fn listed_keys_give_the_names_of_the_plugins() {
    assert_eq!(extract_filename("install/plugin/evm.zst"), "evm");
    assert!(is_placeholder(&extract_filename("install/plugin")));
    assert!(is_placeholder(&extract_filename("install/plugin/")));
    assert!(!is_placeholder(&extract_filename("install/plugin/evm.zst")));
    assert!(!is_placeholder(&extract_filename("install/myplugin")));
}

#[test]
fn plugins_are_placed_under_their_extracted_names() {
    assert_eq!(plugin_target("/data/plugins", "install/plugin/evm.zst"), "/data/plugins/evm");
    assert_eq!(plugin_target("/data/plugins/", "evm"), "/data/plugins//evm");
    assert_eq!(plugin_target("", "a/b.tar.gz"), "/b.tar");
}

#[test]
fn binary_and_plugins_are_mirrored() {
    let mut world = World::new(&["install/plugin/", "install/plugin/evm.zst", "install/plugin/abc"], &[]);
    assert_eq!(world.run(Sync::new(request(false), policy())), Ok(()));
    assert_eq!(
        world.gets,
        vec![
            (String::from("bucket"), String::from("install/avalanchego"), String::from("/tmp/scratch1")),
            (String::from("bucket"), String::from("install/plugin/evm.zst"), String::from("/tmp/scratch2")),
            (String::from("bucket"), String::from("install/plugin/abc"), String::from("/tmp/scratch3")),
        ]
    );
    let expected: BTreeSet<String> =
        ["/data/avalanchego", "/data/plugins/evm", "/data/plugins/abc"].iter().map(|f| String::from(*f)).collect();
    assert_eq!(world.files, expected);
    assert_eq!(world.dirs, vec![String::from("/data/plugins")]);
    assert_eq!(world.lists, 1);
    assert!(world.waits.is_empty());
}

#[test]
fn placeholder_key_yields_no_local_file() {
    let mut world = World::new(&["install/plugin", "install/plugin/evm.zst"], &["/data/avalanchego"]);
    assert_eq!(world.run(Sync::new(request(false), policy())), Ok(()));
    assert_eq!(world.gets.len(), 1);
    assert_eq!(world.gets[0].1, "install/plugin/evm.zst");
    let expected: BTreeSet<String> =
        ["/data/avalanchego", "/data/plugins/evm"].iter().map(|f| String::from(*f)).collect();
    assert_eq!(world.files, expected);
}

#[test]
fn second_sync_without_overwrite_gets_nothing() {
    let mut world = World::new(&["install/plugin/", "install/plugin/evm.zst", "install/plugin/abc"], &[]);
    assert_eq!(world.run(Sync::new(request(false), policy())), Ok(()));
    assert_eq!(world.gets.len(), 3);
    world.gets.clear();
    assert_eq!(world.run(Sync::new(request(false), policy())), Ok(()));
    assert!(world.gets.is_empty());
    assert_eq!(world.scratches, 3);
    assert_eq!(world.lists, 2);
}

#[test]
fn overwrite_gets_everything_again() {
    let mut world = World::new(
        &["install/plugin/evm.zst"],
        &["/data/avalanchego", "/data/plugins/evm"],
    );
    assert_eq!(world.run(Sync::new(request(true), policy())), Ok(()));
    assert_eq!(world.gets.len(), 2);
    assert_eq!(world.gets[0].1, "install/avalanchego");
    assert_eq!(world.gets[1].1, "install/plugin/evm.zst");
    world.gets.clear();
    assert_eq!(world.run(Sync::new(request(true), policy())), Ok(()));
    assert_eq!(world.gets.len(), 2);
}

#[test]
fn only_missing_plugins_are_fetched_without_overwrite() {
    let mut world = World::new(
        &["install/plugin/evm.zst", "install/plugin/abc"],
        &["/data/avalanchego", "/data/plugins/evm"],
    );
    assert_eq!(world.run(Sync::new(request(false), policy())), Ok(()));
    assert_eq!(world.gets.len(), 1);
    assert_eq!(world.gets[0].1, "install/plugin/abc");
}

#[test]
fn empty_listing_ends_after_the_binary() {
    let mut world = World::new(&[], &[]);
    assert_eq!(world.run(Sync::new(request(false), policy())), Ok(()));
    assert_eq!(world.gets.len(), 1);
    assert_eq!(world.dirs.len(), 1);
}

#[test]
fn retryable_failures_are_waited_out() {
    let mut world = World::new(&[], &[]);
    world.store_failures = 3;
    assert_eq!(world.run(Sync::new(request(false), policy())), Ok(()));
    assert_eq!(world.gets.len(), 4);
    assert_eq!(world.waits, vec![5, 10, 15]);
}

#[test]
fn get_is_given_up_after_twenty_attempts() {
    let mut world = World::new(&[], &[]);
    world.store_failures = 1000;
    assert_eq!(world.run(Sync::new(request(false), policy())), Err(SyncFailure::RetriesExhausted));
    assert_eq!(world.gets.len(), 20);
    assert_eq!(world.waits, (1..=20).map(|round| round * 5).collect::<Vec<u64>>());
    assert_eq!(world.lists, 0);
}

#[test]
fn list_is_given_up_after_twenty_attempts() {
    let mut world = World::new(&["install/plugin/evm.zst"], &["/data/avalanchego"]);
    world.store_failures = 1000;
    assert_eq!(world.run(Sync::new(request(false), policy())), Err(SyncFailure::RetriesExhausted));
    assert_eq!(world.lists, 20);
    assert!(world.gets.is_empty());
    assert_eq!(world.waits.len(), 20);
    assert_eq!(world.waits[19], 100);
}

#[test]
fn each_call_of_the_store_has_its_own_budget() {
    let mut world = World::new(&["install/plugin/evm.zst"], &[]);
    world.store_failures = 19;
    assert_eq!(world.run(Sync::new(request(false), policy())), Ok(()));
    assert_eq!(world.gets.len(), 21);
    assert_eq!(world.lists, 1);
}

#[test]
fn fatal_failure_of_the_store_ends_the_sync_at_once() {
    let mut world = World::new(&[], &[]);
    world.store_failures = 1;
    world.fatal = true;
    assert_eq!(world.run(Sync::new(request(false), policy())), Err(SyncFailure::NonRetryable));
    assert_eq!(world.gets.len(), 1);
    assert!(world.waits.is_empty());

    let mut world = World::new(&[], &["/data/avalanchego"]);
    world.store_failures = 1;
    world.fatal = true;
    assert_eq!(world.run(Sync::new(request(false), policy())), Err(SyncFailure::NonRetryable));
    assert_eq!(world.lists, 1);
}

#[test]
fn earlier_plugins_stay_when_a_later_one_fails() {
    let sync = Sync::new(request(false), policy());
    let sync = sync.advance(SyncEvent::Exists(true));
    let sync = sync.advance(SyncEvent::Listed {
        outcome: StoreOutcome::Done,
        keys: vec![String::from("install/plugin/evm.zst"), String::from("install/plugin/abc")],
    });
    let sync = sync.advance(SyncEvent::DirReady(true));
    assert_eq!(sync.action(), SyncAction::Probe { path: String::from("/data/plugins/evm") });
    let sync = sync.advance(SyncEvent::Exists(false));
    let sync = sync.advance(SyncEvent::Scratch(Some(String::from("/tmp/s1"))));
    let sync = sync.advance(SyncEvent::Fetched(StoreOutcome::Done));
    assert_eq!(
        sync.action(),
        SyncAction::Place {
            scratch: String::from("/tmp/s1"),
            target: String::from("/data/plugins/evm"),
            mode: 0o777,
        }
    );
    let sync = sync.advance(SyncEvent::Placed(true));
    assert_eq!(sync.action(), SyncAction::Probe { path: String::from("/data/plugins/abc") });
    let sync = sync.advance(SyncEvent::Exists(false));
    let sync = sync.advance(SyncEvent::Scratch(Some(String::from("/tmp/s2"))));
    let (sync, action) = sync.step(SyncEvent::Fetched(StoreOutcome::Fatal));
    assert_eq!(action, SyncAction::Fail { reason: SyncFailure::NonRetryable });
    let (_, action) = sync.step(SyncEvent::Placed(true));
    assert_eq!(action, SyncAction::Fail { reason: SyncFailure::NonRetryable });
}

#[test]
fn failures_of_the_disk_end_the_sync() {
    let sync = Sync::new(request(false), policy());
    let sync = sync.advance(SyncEvent::Exists(false));
    assert_eq!(sync.action(), SyncAction::AllocateScratch { name_len: 15 });
    let sync = sync.advance(SyncEvent::Scratch(None));
    assert_eq!(sync.action(), SyncAction::Fail { reason: SyncFailure::NoScratch });

    let sync = Sync::new(request(false), policy());
    let sync = sync.advance(SyncEvent::Exists(false));
    let sync = sync.advance(SyncEvent::Scratch(Some(String::from("/tmp/s"))));
    let sync = sync.advance(SyncEvent::Fetched(StoreOutcome::Done));
    let sync = sync.advance(SyncEvent::Placed(false));
    assert_eq!(sync.action(), SyncAction::Fail { reason: SyncFailure::NotPlaced });

    let sync = Sync::new(request(false), policy());
    let sync = sync.advance(SyncEvent::Exists(true));
    let sync = sync.advance(SyncEvent::Listed { outcome: StoreOutcome::Done, keys: Vec::new() });
    let sync = sync.advance(SyncEvent::DirReady(false));
    assert_eq!(sync.action(), SyncAction::Fail { reason: SyncFailure::NoPluginDir });
}

#[test]
fn key_without_a_name_ends_the_sync_when_it_is_reached() {
    let mut world = World::new(&["install/plugin/evm.zst", "/", "install/plugin/abc"], &["/data/avalanchego"]);
    assert_eq!(world.run(Sync::new(request(false), policy())), Err(SyncFailure::NamelessKey));
    assert_eq!(world.gets.len(), 1);
    assert!(world.files.contains("/data/plugins/evm"));
    assert!(!world.files.contains("/data/plugins/abc"));
}

#[test]
fn sync_ignores_reports_out_of_turn() {
    let sync = Sync::new(request(false), policy());
    let sync = sync.advance(SyncEvent::Slept);
    let sync = sync.advance(SyncEvent::Fetched(StoreOutcome::Done));
    let sync = sync.advance(SyncEvent::Placed(true));
    assert_eq!(sync.stage(), SyncStage::Probing);
    assert_eq!(sync.action(), SyncAction::Probe { path: String::from("/data/avalanchego") });
}

#[test]
fn store_is_tried_twenty_times_with_waits_of_five_seconds() {
    let policy = store_retry_policy();
    assert_eq!(policy.max_attempts(), 20);
    assert_eq!(policy.base_delay_secs(), 5);
    assert_eq!(policy, RetryPolicy::new(20, 5).unwrap());
    let mut world = World::new(&[], &[]);
    world.store_failures = 1000;
    assert_eq!(world.run(Sync::with_store_policy(request(false))), Err(SyncFailure::RetriesExhausted));
    assert_eq!(world.gets.len(), 20);
    assert_eq!(world.waits[0], 5);
    assert_eq!(world.waits[19], 100);
}

#[test]
fn key_that_ends_in_two_dots_names_no_file() {
    let mut world = World::new(&["install/plugin/.."], &["/data/avalanchego"]);
    assert_eq!(world.run(Sync::new(request(false), policy())), Err(SyncFailure::NamelessKey));
    assert!(world.gets.is_empty());
    assert_eq!(world.scratches, 0);
}

#[test]
fn dot_segments_at_the_end_of_a_key_do_not_count() {
    let mut world = World::new(&["install/plugin/evm.zst/.", "install/plugin/./"], &["/data/avalanchego"]);
    assert_eq!(world.run(Sync::new(request(false), policy())), Ok(()));
    assert_eq!(world.gets.len(), 1);
    assert_eq!(world.gets[0].1, "install/plugin/evm.zst/.");
    assert!(world.files.contains("/data/plugins/evm"));
}

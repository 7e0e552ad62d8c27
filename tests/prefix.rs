use guild_config::cache::{ConfigCache, Mutation};
use guild_config::config::{has_whitespace, is_valid_prefix, trimmed, WorkspaceConfig};
use guild_config::error::CoreError;
use guild_config::lifecycle::join_completed;
use guild_config::prefix_command::{prefix_command, prefix_stored, PrefixOutcome};
use guild_config::store::StoreOp;

fn joined(id: u64) -> ConfigCache {
    let mut cache = ConfigCache::new();
    join_completed(&mut cache, id, 1, true).unwrap();
    cache
}

#[test]
fn direct_message_shows_info() {
    let mut cache = joined(1);
    let r = prefix_command(&mut cache, None, 2, true, "!");
    assert!(matches!(r, PrefixOutcome::DirectMessageInfo));
    assert_eq!(r.error(), Some(CoreError::MissingContext));
    assert_eq!(cache.prefix_of(1), Some("-".to_string()));
}

#[test]
fn non_admin_never_mutates() {
    for raw in ["!", "", "a b", "   ", "??"] {
        let mut cache = joined(1);
        let r = prefix_command(&mut cache, Some(1), 2, false, raw);
        assert!(matches!(r, PrefixOutcome::Denied));
        assert_eq!(r.error(), Some(CoreError::PermissionDenied));
        assert_eq!(cache.prefix_of(1), Some("-".to_string()));
        assert_eq!(cache.size(), 1);
    }
    let mut empty = ConfigCache::new();
    let r = prefix_command(&mut empty, Some(4), 2, false, "!");
    assert!(matches!(r, PrefixOutcome::Denied));
    assert_eq!(empty.size(), 0);
}

#[test]
fn whitespace_candidate_rejected() {
    for raw in ["a b", " x\ty ", "p\u{3000}q", "!\u{a0}!"] {
        let mut cache = joined(1);
        let r = prefix_command(&mut cache, Some(1), 2, true, raw);
        assert!(matches!(r, PrefixOutcome::Rejected));
        assert_eq!(r.error(), Some(CoreError::ValidationError));
        assert_eq!(cache.prefix_of(1), Some("-".to_string()));
    }
}

#[test]
fn empty_argument_shows_current() {
    let mut cache = joined(1);
    match prefix_command(&mut cache, Some(1), 2, true, "  \n ") {
        PrefixOutcome::Current(p) => assert_eq!(p, "-"),
        _ => panic!("expected the current prefix"),
    }
    let r = prefix_command(&mut cache, Some(9), 2, true, "");
    assert!(matches!(r, PrefixOutcome::NotCached(9)));
    assert_eq!(r.error(), Some(CoreError::NotFound));
    assert_eq!(cache.size(), 1);
}

#[test]
fn surrounding_whitespace_is_trimmed() {
    let mut cache = joined(1);
    match prefix_command(&mut cache, Some(1), 2, true, "  >> \t") {
        PrefixOutcome::Write(StoreOp::SetPrefix(row)) => {
            assert_eq!(row.prefix, ">>");
            assert_eq!(row.workspace_id, 1);
            assert_eq!(row.owner_id, 1);
        }
        _ => panic!("expected a write"),
    }
    assert_eq!(cache.prefix_of(1), Some(">>".to_string()));
}

#[test]
fn prefix_on_untracked_guild_creates_entry() {
    let mut cache = ConfigCache::new();
    let r = prefix_command(&mut cache, Some(50), 6, true, "$");
    assert_eq!(r.error(), None);
    match r {
        PrefixOutcome::Write(StoreOp::SetPrefix(row)) => {
            assert_eq!(row.workspace_id, 50);
            assert_eq!(row.owner_id, 6);
            assert_eq!(row.prefix, "$");
        }
        _ => panic!("expected a write"),
    }
    assert_eq!(cache.get(50).unwrap().owner_id, 6);
}

#[test]
fn store_failure_is_reported() {
    assert_eq!(prefix_stored("!".to_string(), false), Err(CoreError::StoreWriteFailure));
    assert_eq!(prefix_stored("!".to_string(), true), Ok("!".to_string()));
}

#[test]
fn trimming_and_whitespace_checks() {
    assert_eq!(trimmed("  ab c \n"), "ab c");
    assert_eq!(trimmed("\u{2003}x\u{2028}"), "x");
    assert_eq!(trimmed("   "), "");
    assert_eq!(trimmed(""), "");
    assert!(has_whitespace("a\u{85}b"));
    assert!(!has_whitespace("abc"));
    assert!(is_valid_prefix("-"));
    assert!(!is_valid_prefix(""));
    assert!(!is_valid_prefix("a b"));
}

#[test]
fn load_row_refuses_invalid_prefix() {
    let mut cache = ConfigCache::new();
    let mut row = WorkspaceConfig::defaults(3, 4);
    row.prefix = "a b".to_string();
    assert_eq!(cache.load_row(row), Err(CoreError::ValidationError));
    assert_eq!(cache.size(), 0);
    let mut row = WorkspaceConfig::defaults(3, 4);
    row.prefix = "%".to_string();
    assert_eq!(cache.load_row(row), Ok(()));
    assert_eq!(cache.prefix_of(3), Some("%".to_string()));
}

#[test]
fn upsert_and_remove() {
    let mut cache = ConfigCache::new();
    let c = cache.upsert(2, 3, Mutation::KeepIfPresent);
    assert_eq!(c.prefix, "-");
    let c = cache.upsert(2, 99, Mutation::SetPrefix("~".to_string()));
    assert_eq!(c.prefix, "~");
    assert_eq!(c.owner_id, 3);
    let removed = cache.remove(2).unwrap();
    assert_eq!(removed.prefix, "~");
    assert!(cache.remove(2).is_none());
}

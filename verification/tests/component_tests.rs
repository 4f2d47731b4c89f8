use hyperion::entity::Uuid;
use hyperion::identity::{ChannelId, ChunkPosition, ConnectionId, ProxyId};
use hyperion::flags::{EntityFlags, FLAG_GLOWING, FLAG_INVISIBLE, FLAG_ON_FIRE};
use hyperion::gameplay::{ChatCooldown, ChatVerdict, LastDamaged, Vanished, vanish_flags_update};
use hyperion::item::interact_handler;
use hyperion::lookup::{PlayerNameHasher, UuidHasher};
use hyperion::permission::Group;
use hyperion::player::{ImmuneStatus, Xp};
use hyperion::utils::{ApiProvider, Prev};

#[test]
fn xp_levels_match_the_table() {
    let cases: [(u16, u8); 10] = [
        (0, 0),
        (6, 0),
        (7, 1),
        (111, 7),
        (112, 8),
        (352, 16),
        (394, 17),
        (9442, 61),
        (9843, 63),
        (65535, 63),
    ];
    for (amount, level) in cases {
        assert_eq!(Xp { amount }.get_level(), level, "amount {amount}");
    }
}

#[test]
fn xp_level_bounds_match_the_table() {
    assert_eq!(Xp::level_bounds(0), (0, 7));
    assert_eq!(Xp::level_bounds(8), (112, 135));
    assert_eq!(Xp::level_bounds(16), (352, 394));
    assert_eq!(Xp::level_bounds(31), (1507, 1628));
    assert_eq!(Xp::level_bounds(32), (1628, 1758));
    assert_eq!(Xp::level_bounds(63), (9843, 10242));
}

#[test]
fn entity_flags_set_clear_and_test() {
    let mut flags = EntityFlags::new();
    assert_eq!(flags.value, 0);
    flags.insert(FLAG_ON_FIRE);
    flags.insert(FLAG_GLOWING);
    assert!(flags.contains(FLAG_ON_FIRE));
    assert!(flags.contains(FLAG_GLOWING));
    assert!(!flags.contains(FLAG_INVISIBLE));
    flags.remove(FLAG_ON_FIRE);
    assert!(!flags.contains(FLAG_ON_FIRE));
    assert_eq!(flags.value, FLAG_GLOWING);
}

#[test]
fn vanishing_toggles_invisibility_and_listing() {
    let start = EntityFlags { value: FLAG_ON_FIRE };
    let (hidden, listed) = vanish_flags_update(start, true);
    assert_eq!(hidden.value, FLAG_ON_FIRE | FLAG_INVISIBLE);
    assert!(!listed);
    let (shown, relisted) = vanish_flags_update(hidden, false);
    assert_eq!(shown.value, FLAG_ON_FIRE);
    assert!(relisted);

    let vanished = Vanished::new(true);
    assert!(vanished.is_vanished());
    assert!(!Vanished::default().is_vanished());
}

#[test]
fn group_codes_round_trip() {
    for group in [Group::Banned, Group::Normal, Group::Moderator, Group::Admin] {
        assert_eq!(Group::from_u8(group.to_u8()), Some(group));
    }
    assert_eq!(Group::Banned.to_u8(), 0);
    assert_eq!(Group::Admin.to_u8(), 3);
    assert_eq!(Group::from_u8(4), None);
    assert_eq!(Group::from_u8(255), None);
    assert_eq!(Group::default(), Group::Normal);
}

#[test]
fn chat_cooldown_rejects_until_expiry() {
    let mut cooldown = ChatCooldown::default();
    assert_eq!(
        cooldown.on_chat(100),
        ChatVerdict::Accepted { new_expires: 160 }
    );
    assert_eq!(
        cooldown.on_chat(130),
        ChatVerdict::Rejected { remaining_ticks: 30 }
    );
    assert_eq!(
        cooldown.on_chat(160),
        ChatVerdict::Accepted { new_expires: 220 }
    );
}

#[test]
fn last_damaged_tracks_the_latest_hit() {
    let mut last = LastDamaged::default();
    last.record(true, 40);
    assert_eq!(last.tick, 40);
    last.record(false, 90);
    assert_eq!(last.tick, 40);
    assert_eq!(last.ticks_since(90), 50);
}

#[test]
fn uuid_hasher_folds_eight_bytes_little_endian() {
    let mut hasher = UuidHasher::default();
    hasher.write(&[1, 0, 0, 0, 0, 0, 0, 0]);
    assert_eq!(hasher.finish(), 1);
    hasher.write(&[0, 1, 0, 0, 0, 0, 0, 0]);
    assert_eq!(hasher.finish(), 257);

    let mut wrapping = UuidHasher(u64::MAX);
    wrapping.write(&[1, 0, 0, 0, 0, 0, 0, 0]);
    assert_eq!(wrapping.finish(), 0);
}

#[test]
fn name_hasher_spreads_each_byte() {
    let mut hasher = PlayerNameHasher::default();
    hasher.write(b"ab");
    assert_eq!(hasher.finish(), 97 * 7456393 + 98 * 7456393);
    let empty = PlayerNameHasher::default();
    assert_eq!(empty.finish(), 0);
}

#[test]
fn random_uuids_carry_version_and_variant_bits() {
    for _ in 0..8 {
        let id = Uuid::new_v4();
        assert_eq!(id.version(), 4);
        assert_eq!((id.0 >> 62) & 0x3, 2);
    }
    assert_ne!(Uuid::new_v4(), Uuid::new_v4());
}

#[test]
fn api_provider_builds_the_lookup_urls() {
    let provider = ApiProvider::mat_does_dev();
    assert_eq!(
        provider.username_url("Notch"),
        "https://mowojang.matdoes.dev/users/profiles/minecraft/Notch"
    );
    assert_eq!(
        provider.uuid_url("86271406-1188-44a5-8496-7af10c906204"),
        "https://mowojang.matdoes.dev/session/minecraft/profile/86271406-1188-44a5-8496-7af10c906204?unsigned=false"
    );
    assert_eq!(provider.max_requests(), 10000);
    assert_eq!(provider.interval_secs(), 1);
    assert_eq!(ApiProvider::mojang().interval_secs(), 600);
}

#[test]
fn prev_holds_the_previous_value() {
    let mut prev = Prev(3u32);
    assert_eq!(*prev.value(), 3);
    prev.set(9);
    assert_eq!(*prev.value(), 9);
}

#[test]
fn interact_handler_reads_the_tag() {
    assert_eq!(interact_handler(true, Some(5)), None);
    assert_eq!(interact_handler(false, None), None);
    assert_eq!(interact_handler(false, Some(5)), Some(5));
    assert_eq!(interact_handler(false, Some(-1)), Some(u64::MAX));
}

#[test]
fn immunity_lasts_until_its_tick() {
    let immune = ImmuneStatus { until: 50 };
    assert!(immune.is_invincible(49));
    assert!(!immune.is_invincible(50));
    assert!(!immune.is_invincible(51));
}

#[test]
fn identity_tokens_expose_their_parts() {
    let proxy = ProxyId::new(11);
    assert_eq!(proxy.inner(), 11);
    let connection = ConnectionId::new(4, proxy);
    assert_eq!(connection.inner(), 4);
    assert_eq!(connection.proxy_id(), proxy);
    assert_eq!(ChannelId::new(9).inner(), 9);
    let position = ChunkPosition::new(-3, 8);
    assert_eq!((position.x, position.z), (-3, 8));
}

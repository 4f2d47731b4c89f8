use hyperion::buffer::OutgoingMessageBuffer;
use hyperion::identity::{ChannelId, ChunkPosition, ProxyId};
use hyperion::intermediate::UpdateChannelPosition;
use hyperion::lifecycle::GroupLifecycle;
use hyperion::proxy_table::ProxyTable;
use hyperion::wire::ServerToProxyMessage;

fn entry(channel_id: u32, x: i16, z: i16) -> UpdateChannelPosition {
    UpdateChannelPosition {
        channel_id,
        position: ChunkPosition::new(x, z),
    }
}

/// Position updates for three groups in one tick produce exactly one
/// batched message containing all three.
#[test]
fn three_group_moves_batch_into_one_message() {
    let mut groups = GroupLifecycle::new();
    let mut buffer = OutgoingMessageBuffer::new();
    groups.add_group(&mut buffer, ChannelId::new(1), vec![]);
    groups.add_group(&mut buffer, ChannelId::new(2), vec![]);
    groups.add_group(&mut buffer, ChannelId::new(3), vec![]);

    let before = buffer.pending_len();
    groups.update_group_positions(
        &mut buffer,
        &vec![entry(1, 0, 0), entry(2, 5, 5), entry(3, -1, 4)],
    );
    assert_eq!(buffer.pending_len(), before + 1);

    let mut table = ProxyTable::new();
    table.connect(ProxyId::new(1));
    let batches = buffer.flush(&table);
    let last = batches[0].messages.last().unwrap();
    match last {
        ServerToProxyMessage::UpdateChannelPositions(w) => {
            assert_eq!(w.updates.len(), 3);
            assert_eq!(w.updates[0].channel_id, 1);
            assert_eq!(w.updates[1].channel_id, 2);
            assert_eq!(w.updates[2].channel_id, 3);
        }
        other => panic!("expected one batched position update, got {other:?}"),
    }
}

#[test]
fn unmoved_groups_emit_no_position_message() {
    let mut groups = GroupLifecycle::new();
    let mut buffer = OutgoingMessageBuffer::new();
    groups.update_group_positions(&mut buffer, &vec![entry(1, 2, 2)]);
    assert_eq!(buffer.pending_len(), 1);

    groups.update_group_positions(&mut buffer, &vec![entry(1, 2, 2)]);
    assert_eq!(buffer.pending_len(), 1);

    groups.update_group_positions(&mut buffer, &vec![entry(1, 3, 2)]);
    assert_eq!(buffer.pending_len(), 2);
}

#[test]
fn only_moved_groups_appear_in_the_batch() {
    let mut groups = GroupLifecycle::new();
    let mut buffer = OutgoingMessageBuffer::new();
    groups.update_group_positions(&mut buffer, &vec![entry(1, 0, 0), entry(2, 1, 1)]);

    groups.update_group_positions(&mut buffer, &vec![entry(1, 0, 0), entry(2, 9, 9)]);

    let mut table = ProxyTable::new();
    table.connect(ProxyId::new(1));
    let batches = buffer.flush(&table);
    match batches[0].messages.last().unwrap() {
        ServerToProxyMessage::UpdateChannelPositions(w) => {
            assert_eq!(w.updates.len(), 1);
            assert_eq!(w.updates[0].channel_id, 2);
            assert_eq!((w.updates[0].position.x, w.updates[0].position.z), (9, 9));
        }
        other => panic!("expected a batched position update, got {other:?}"),
    }
}

#[test]
fn group_creation_and_destruction_emit_their_messages() {
    let mut groups = GroupLifecycle::new();
    let mut buffer = OutgoingMessageBuffer::new();
    let id = ChannelId::new(12);

    assert!(!groups.is_active(id));
    groups.add_group(&mut buffer, id, vec![0xDE, 0xAD]);
    assert!(groups.is_active(id));

    groups.remove_group(&mut buffer, id);
    assert!(!groups.is_active(id));

    let mut table = ProxyTable::new();
    table.connect(ProxyId::new(1));
    let batches = buffer.flush(&table);
    match &batches[0].messages[..] {
        [ServerToProxyMessage::AddChannel(add), ServerToProxyMessage::RemoveChannel(remove)] => {
            assert_eq!(add.channel_id, 12);
            assert_eq!(add.unsubscribe_packets, vec![0xDE, 0xAD]);
            assert_eq!(remove.channel_id, 12);
        }
        other => panic!("expected an add then a remove, got {other:?}"),
    }
}

#[test]
fn removed_group_position_is_forgotten() {
    let mut groups = GroupLifecycle::new();
    let mut buffer = OutgoingMessageBuffer::new();
    let id = ChannelId::new(5);

    groups.add_group(&mut buffer, id, vec![]);
    groups.update_group_positions(&mut buffer, &vec![entry(5, 4, 4)]);
    groups.remove_group(&mut buffer, id);
    groups.add_group(&mut buffer, id, vec![]);
    let before = buffer.pending_len();

    // The old position was forgotten with the group, so the same
    // coordinates count as a move of the re-created group.
    groups.update_group_positions(&mut buffer, &vec![entry(5, 4, 4)]);
    assert_eq!(buffer.pending_len(), before + 1);
}

use prost::bytes::{Buf, BufMut};
use prost::encoding::{int32, skip_field, DecodeContext, WireType};
use prost::{DecodeError, Message};

use ymessenger::goloom::{
    default_capabilities_offer, hello_message, new_uid, to_telemost_participant, CapabilitiesOffer,
    GoloomMessage, HelloAuth, MessageKind, NetworkQualityScore, ConnectionType, OfferAnswerMode,
    ParticipantDescription, SlotsMode, StatusCode, UpsertDescription,
};

/// The 28 repeated enumeration fields of `CapabilitiesOffer`, by tag, with
/// the wire format that the protobuf definition gives them.
#[derive(Debug, Default, Clone, PartialEq)]
struct OfferWire {
    fields: Vec<Vec<i32>>,
}

impl OfferWire {
    fn from_offer(o: &CapabilitiesOffer) -> Self {
        OfferWire {
            fields: vec![
                o.offer_answer_mode.clone(),
                o.initial_subscriber_offer.clone(),
                o.slots_mode.clone(),
                o.simulcast_mode.clone(),
                o.self_vad_status.clone(),
                o.data_channel_sharing.clone(),
                o.video_encoder_config.clone(),
                o.data_channel_video_codec.clone(),
                o.bandwidth_limitation_reason.clone(),
                o.server_layout_transition.clone(),
                o.pin_layout.clone(),
                o.join_order_layout.clone(),
                o.send_self_view_video_slot.clone(),
                o.sdk_default_device_management.clone(),
                o.sdk_publisher_optimize_bitrate.clone(),
                o.sdk_network_path_monitor.clone(),
                o.publisher_vp9.clone(),
                o.svc_mode.clone(),
                o.sdk_network_lost_detection.clone(),
                o.fixed_ice_candidates_pool_size.clone(),
                o.subscriber_offer_async_ack.clone(),
                o.android_bluetooth_routing_fix.clone(),
                o.sdk_android_telecom_integration.clone(),
                o.set_active_codecs_mode.clone(),
                o.subscriber_dtls_passive_mode.clone(),
                o.publisher_opus_low_bitrate.clone(),
                o.publisher_opus_dred.clone(),
                o.sdk_android_destroy_session_on_task_removed.clone(),
            ],
        }
    }

    fn field(&self, tag: usize) -> Vec<i32> {
        self.fields.get(tag - 1).cloned().unwrap_or_default()
    }
}

impl Message for OfferWire {
    fn encode_raw(&self, buf: &mut impl BufMut) {
        for (i, values) in self.fields.iter().enumerate() {
            int32::encode_packed((i + 1) as u32, values, buf);
        }
    }

    fn merge_field(
        &mut self,
        tag: u32,
        wire_type: WireType,
        buf: &mut impl Buf,
        ctx: DecodeContext,
    ) -> Result<(), DecodeError> {
        if (1..=28).contains(&tag) {
            if self.fields.len() < 28 {
                self.fields.resize(28, Vec::new());
            }
            int32::merge_repeated(wire_type, &mut self.fields[(tag - 1) as usize], buf, ctx)
        } else {
            skip_field(wire_type, tag, buf, ctx)
        }
    }

    fn encoded_len(&self) -> usize {
        self.fields
            .iter()
            .enumerate()
            .map(|(i, values)| int32::encoded_len_packed((i + 1) as u32, values))
            .sum()
    }

    fn clear(&mut self) {
        self.fields.clear();
    }
}

#[test]
fn ack_terminal_codes_policy() {
    assert!(StatusCode::is_terminal(StatusCode::KickedOut.to_i32()));
    assert!(StatusCode::is_terminal(StatusCode::RoomHasBeenClosed.to_i32()));
    assert!(!StatusCode::is_terminal(StatusCode::Success.to_i32()));
    assert!(StatusCode::expects_reconnect(StatusCode::MoveToNewMediaServer.to_i32()));
    assert!(StatusCode::expects_reconnect(StatusCode::NetworkLost.to_i32()));
    assert!(!StatusCode::expects_reconnect(StatusCode::PermissionDenied.to_i32()));
}

#[test]
fn default_offer_covers_all_28_fields() {
    let offer = default_capabilities_offer();
    let wire = OfferWire::from_offer(&offer);
    let bytes = {
        let mut buf = Vec::new();
        wire.encode(&mut buf).expect("encode offer");
        buf
    };
    let back = OfferWire::decode(bytes.as_slice()).expect("decode offer");
    assert_eq!(back.field(1), vec![OfferAnswerMode::Separate.to_i32()]);
    assert_eq!(back.field(3), vec![SlotsMode::FromController.to_i32()]);
    assert!(!back.field(18).is_empty());
    assert!(!back.field(28).is_empty());
    for tag in 1..=28 {
        assert_eq!(back.field(tag).len(), 1, "field {tag}");
    }
}

#[test]
fn hello_message_carries_join_fields() {
    let msg = hello_message(
        "room-1",
        "peer-1",
        Some("cred".into()),
        Some("Bob"),
        true,
        true,
        false,
        "2.173.0",
        4,
    );
    assert!(!msg.uid.is_empty());
    match msg.kind {
        Some(MessageKind::Hello(h)) => {
            assert_eq!(h.room_id, "room-1");
            assert_eq!(h.participant_id, "peer-1");
            assert_eq!(h.auth, Some(HelloAuth::Credentials("cred".to_string())));
            assert!(h.send_audio && h.send_video && !h.send_sharing);
            assert!(h.capabilities_offer.is_some());
            assert_eq!(h.sdk_info.as_ref().unwrap().implementation, "linux-desktop");
        }
        other => panic!("expected Hello, got {:?}", other.is_some()),
    }
}

#[test]
fn slots_and_roster_roundtrip() {
    let msg = GoloomMessage {
        uid: new_uid(),
        kind: Some(MessageKind::UpsertDescription(UpsertDescription {
            description: vec![ParticipantDescription {
                id: "p1".into(),
                participant_attributes: vec![("name".to_string(), "Alice".to_string())],
                send_audio: true,
                send_video: false,
                send_sharing: false,
                hide_from_participants_list: false,
                disconnected_at: None,
                network_score: NetworkQualityScore::Good.to_i32(),
                connection_type: ConnectionType::Sdk.to_i32(),
                ref_participant_id: None,
            }],
        })),
    };
    match msg.kind {
        Some(MessageKind::UpsertDescription(u)) => {
            assert_eq!(u.description.len(), 1);
            let p = &u.description[0];
            assert_eq!(p.display_name(), Some("Alice"));
            assert!(p.is_connected());
            let model = to_telemost_participant(p);
            assert_eq!(model.id, "p1");
            assert_eq!(model.name.as_deref(), Some("Alice"));
            assert_eq!(model.audio_enabled, Some(true));
        }
        _ => panic!("expected UpsertDescription"),
    }
}

#[test]
fn uids_unique_per_message() {
    assert_ne!(new_uid(), new_uid());
}

#[test]
fn uid_has_uuid_v4_shape() {
    let u = new_uid();
    assert_eq!(u.len(), 36);
    assert_eq!(&u[14..15], "4");
    assert_eq!(u.matches('-').count(), 4);
}

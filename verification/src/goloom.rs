//! Goloom call-signaling schema (`signaling.proto`, `capabilities.proto`):
//! the enumerations with their wire numbers and the message types.
//! Protobuf maps are held as key/value vectors.

use vstd::prelude::*;

use crate::models::{ParticipantRole, TelemostParticipant};

verus! {

/// Protobuf enumeration `OfferAnswerMode`; `value` is its wire number.
#[derive(Clone, Copy, Debug, PartialEq, Eq, Hash)]
pub enum OfferAnswerMode {
    Separate,
    United,
}

impl OfferAnswerMode {
    pub open spec fn value(self) -> i32 {
        match self {
            OfferAnswerMode::Separate => 0,
            OfferAnswerMode::United => 1,
        }
    }

    pub fn to_i32(self) -> (r: i32)
        ensures
            r == self.value(),
    {
        match self {
            OfferAnswerMode::Separate => 0,
            OfferAnswerMode::United => 1,
        }
    }
}

/// Protobuf enumeration `InitialSubscriberOffer`; `value` is its wire number.
#[derive(Clone, Copy, Debug, PartialEq, Eq, Hash)]
pub enum InitialSubscriberOffer {
    OnRequestSubscription,
    OnHello,
}

impl InitialSubscriberOffer {
    pub open spec fn value(self) -> i32 {
        match self {
            InitialSubscriberOffer::OnRequestSubscription => 0,
            InitialSubscriberOffer::OnHello => 1,
        }
    }

    pub fn to_i32(self) -> (r: i32)
        ensures
            r == self.value(),
    {
        match self {
            InitialSubscriberOffer::OnRequestSubscription => 0,
            InitialSubscriberOffer::OnHello => 1,
        }
    }
}

/// Protobuf enumeration `SlotsMode`; `value` is its wire number.
#[derive(Clone, Copy, Debug, PartialEq, Eq, Hash)]
pub enum SlotsMode {
    FromSfu,
    FromController,
}

impl SlotsMode {
    pub open spec fn value(self) -> i32 {
        match self {
            SlotsMode::FromSfu => 0,
            SlotsMode::FromController => 1,
        }
    }

    pub fn to_i32(self) -> (r: i32)
        ensures
            r == self.value(),
    {
        match self {
            SlotsMode::FromSfu => 0,
            SlotsMode::FromController => 1,
        }
    }
}

/// Protobuf enumeration `SimulcastMode`; `value` is its wire number.
#[derive(Clone, Copy, Debug, PartialEq, Eq, Hash)]
pub enum SimulcastMode {
    Disabled,
    Static,
}

impl SimulcastMode {
    pub open spec fn value(self) -> i32 {
        match self {
            SimulcastMode::Disabled => 0,
            SimulcastMode::Static => 1,
        }
    }

    pub fn to_i32(self) -> (r: i32)
        ensures
            r == self.value(),
    {
        match self {
            SimulcastMode::Disabled => 0,
            SimulcastMode::Static => 1,
        }
    }
}

/// Protobuf enumeration `SelfVadStatus`; `value` is its wire number.
#[derive(Clone, Copy, Debug, PartialEq, Eq, Hash)]
pub enum SelfVadStatus {
    FromClient,
    FromServer,
}

impl SelfVadStatus {
    pub open spec fn value(self) -> i32 {
        match self {
            SelfVadStatus::FromClient => 0,
            SelfVadStatus::FromServer => 1,
        }
    }

    pub fn to_i32(self) -> (r: i32)
        ensures
            r == self.value(),
    {
        match self {
            SelfVadStatus::FromClient => 0,
            SelfVadStatus::FromServer => 1,
        }
    }
}

/// Protobuf enumeration `DataChannelSharing`; `value` is its wire number.
#[derive(Clone, Copy, Debug, PartialEq, Eq, Hash)]
pub enum DataChannelSharing {
    ToDataChannel,
    ToRtp,
}

impl DataChannelSharing {
    pub open spec fn value(self) -> i32 {
        match self {
            DataChannelSharing::ToDataChannel => 0,
            DataChannelSharing::ToRtp => 1,
        }
    }

    pub fn to_i32(self) -> (r: i32)
        ensures
            r == self.value(),
    {
        match self {
            DataChannelSharing::ToDataChannel => 0,
            DataChannelSharing::ToRtp => 1,
        }
    }
}

/// Protobuf enumeration `DataChannelVideoCodec`; `value` is its wire number.
#[derive(Clone, Copy, Debug, PartialEq, Eq, Hash)]
pub enum DataChannelVideoCodec {
    Vp8,
    UniqueCodecFromTrackDescription,
}

impl DataChannelVideoCodec {
    pub open spec fn value(self) -> i32 {
        match self {
            DataChannelVideoCodec::Vp8 => 0,
            DataChannelVideoCodec::UniqueCodecFromTrackDescription => 1,
        }
    }

    pub fn to_i32(self) -> (r: i32)
        ensures
            r == self.value(),
    {
        match self {
            DataChannelVideoCodec::Vp8 => 0,
            DataChannelVideoCodec::UniqueCodecFromTrackDescription => 1,
        }
    }
}

/// Protobuf enumeration `VideoEncoderConfigSupport`; `value` is its wire number.
#[derive(Clone, Copy, Debug, PartialEq, Eq, Hash)]
pub enum VideoEncoderConfigSupport {
    NoConfig,
    OnlyInitConfig,
    RuntimeConfig,
}

impl VideoEncoderConfigSupport {
    pub open spec fn value(self) -> i32 {
        match self {
            VideoEncoderConfigSupport::NoConfig => 0,
            VideoEncoderConfigSupport::OnlyInitConfig => 1,
            VideoEncoderConfigSupport::RuntimeConfig => 2,
        }
    }

    pub fn to_i32(self) -> (r: i32)
        ensures
            r == self.value(),
    {
        match self {
            VideoEncoderConfigSupport::NoConfig => 0,
            VideoEncoderConfigSupport::OnlyInitConfig => 1,
            VideoEncoderConfigSupport::RuntimeConfig => 2,
        }
    }
}

/// Protobuf enumeration `BandwidthLimitationReason`; `value` is its wire number.
#[derive(Clone, Copy, Debug, PartialEq, Eq, Hash)]
pub enum BandwidthLimitationReason {
    Disabled,
    Enabled,
}

impl BandwidthLimitationReason {
    pub open spec fn value(self) -> i32 {
        match self {
            BandwidthLimitationReason::Disabled => 0,
            BandwidthLimitationReason::Enabled => 1,
        }
    }

    pub fn to_i32(self) -> (r: i32)
        ensures
            r == self.value(),
    {
        match self {
            BandwidthLimitationReason::Disabled => 0,
            BandwidthLimitationReason::Enabled => 1,
        }
    }
}

/// Protobuf enumeration `ServerLayoutTransition`; `value` is its wire number.
#[derive(Clone, Copy, Debug, PartialEq, Eq, Hash)]
pub enum ServerLayoutTransition {
    Disabled,
    Enabled,
}

impl ServerLayoutTransition {
    pub open spec fn value(self) -> i32 {
        match self {
            ServerLayoutTransition::Disabled => 0,
            ServerLayoutTransition::Enabled => 1,
        }
    }

    pub fn to_i32(self) -> (r: i32)
        ensures
            r == self.value(),
    {
        match self {
            ServerLayoutTransition::Disabled => 0,
            ServerLayoutTransition::Enabled => 1,
        }
    }
}

/// Protobuf enumeration `PinLayout`; `value` is its wire number.
#[derive(Clone, Copy, Debug, PartialEq, Eq, Hash)]
pub enum PinLayout {
    Disabled,
    Enabled,
}

impl PinLayout {
    pub open spec fn value(self) -> i32 {
        match self {
            PinLayout::Disabled => 0,
            PinLayout::Enabled => 1,
        }
    }

    pub fn to_i32(self) -> (r: i32)
        ensures
            r == self.value(),
    {
        match self {
            PinLayout::Disabled => 0,
            PinLayout::Enabled => 1,
        }
    }
}

/// Protobuf enumeration `JoinOrderLayout`; `value` is its wire number.
#[derive(Clone, Copy, Debug, PartialEq, Eq, Hash)]
pub enum JoinOrderLayout {
    Disabled,
    Enabled,
}

impl JoinOrderLayout {
    pub open spec fn value(self) -> i32 {
        match self {
            JoinOrderLayout::Disabled => 0,
            JoinOrderLayout::Enabled => 1,
        }
    }

    pub fn to_i32(self) -> (r: i32)
        ensures
            r == self.value(),
    {
        match self {
            JoinOrderLayout::Disabled => 0,
            JoinOrderLayout::Enabled => 1,
        }
    }
}

/// Protobuf enumeration `SendSelfViewVideoSlot`; `value` is its wire number.
#[derive(Clone, Copy, Debug, PartialEq, Eq, Hash)]
pub enum SendSelfViewVideoSlot {
    Disabled,
    Enabled,
}

impl SendSelfViewVideoSlot {
    pub open spec fn value(self) -> i32 {
        match self {
            SendSelfViewVideoSlot::Disabled => 0,
            SendSelfViewVideoSlot::Enabled => 1,
        }
    }

    pub fn to_i32(self) -> (r: i32)
        ensures
            r == self.value(),
    {
        match self {
            SendSelfViewVideoSlot::Disabled => 0,
            SendSelfViewVideoSlot::Enabled => 1,
        }
    }
}

/// Protobuf enumeration `SdkDefaultDeviceManagement`; `value` is its wire number.
#[derive(Clone, Copy, Debug, PartialEq, Eq, Hash)]
pub enum SdkDefaultDeviceManagement {
    Disabled,
    Enabled,
}

impl SdkDefaultDeviceManagement {
    pub open spec fn value(self) -> i32 {
        match self {
            SdkDefaultDeviceManagement::Disabled => 0,
            SdkDefaultDeviceManagement::Enabled => 1,
        }
    }

    pub fn to_i32(self) -> (r: i32)
        ensures
            r == self.value(),
    {
        match self {
            SdkDefaultDeviceManagement::Disabled => 0,
            SdkDefaultDeviceManagement::Enabled => 1,
        }
    }
}

/// Protobuf enumeration `SdkPublisherOptimizeBitrate`; `value` is its wire number.
#[derive(Clone, Copy, Debug, PartialEq, Eq, Hash)]
pub enum SdkPublisherOptimizeBitrate {
    Disabled,
    OnlySelf,
    Full,
}

impl SdkPublisherOptimizeBitrate {
    pub open spec fn value(self) -> i32 {
        match self {
            SdkPublisherOptimizeBitrate::Disabled => 0,
            SdkPublisherOptimizeBitrate::OnlySelf => 1,
            SdkPublisherOptimizeBitrate::Full => 2,
        }
    }

    pub fn to_i32(self) -> (r: i32)
        ensures
            r == self.value(),
    {
        match self {
            SdkPublisherOptimizeBitrate::Disabled => 0,
            SdkPublisherOptimizeBitrate::OnlySelf => 1,
            SdkPublisherOptimizeBitrate::Full => 2,
        }
    }
}

/// Protobuf enumeration `SdkNetworkPathMonitor`; `value` is its wire number.
#[derive(Clone, Copy, Debug, PartialEq, Eq, Hash)]
pub enum SdkNetworkPathMonitor {
    Disabled,
    Enabled,
}

impl SdkNetworkPathMonitor {
    pub open spec fn value(self) -> i32 {
        match self {
            SdkNetworkPathMonitor::Disabled => 0,
            SdkNetworkPathMonitor::Enabled => 1,
        }
    }

    pub fn to_i32(self) -> (r: i32)
        ensures
            r == self.value(),
    {
        match self {
            SdkNetworkPathMonitor::Disabled => 0,
            SdkNetworkPathMonitor::Enabled => 1,
        }
    }
}

/// Protobuf enumeration `PublishVp9`; `value` is its wire number.
#[derive(Clone, Copy, Debug, PartialEq, Eq, Hash)]
pub enum PublishVp9 {
    Disabled,
    Enabled,
}

impl PublishVp9 {
    pub open spec fn value(self) -> i32 {
        match self {
            PublishVp9::Disabled => 0,
            PublishVp9::Enabled => 1,
        }
    }

    pub fn to_i32(self) -> (r: i32)
        ensures
            r == self.value(),
    {
        match self {
            PublishVp9::Disabled => 0,
            PublishVp9::Enabled => 1,
        }
    }
}

/// Protobuf enumeration `SvcMode`; `value` is its wire number.
#[derive(Clone, Copy, Debug, PartialEq, Eq, Hash)]
pub enum SvcMode {
    Disabled,
    L1t1,
    L1t2,
    L1t3,
    L2t1,
    L2t2,
    L2t3,
    L3t1,
    L3t2,
    L3t3,
    L2t1h,
    L2t2h,
    L2t3h,
    L3t1h,
    L3t2h,
    L3t3h,
    S2t1,
    S2t2,
    S2t3,
    S2t1h,
    S2t2h,
    S2t3h,
    S3t1,
    S3t2,
    S3t3,
    S3t1h,
    S3t2h,
    S3t3h,
    L2t2Key,
    L2t2KeyShift,
    L2t3Key,
    L2t3KeyShift,
    L3t1Key,
    L3t2Key,
    L3t2KeyShift,
    L3t3Key,
    L3t3KeyShift,
}

impl SvcMode {
    pub open spec fn value(self) -> i32 {
        match self {
            SvcMode::Disabled => 0,
            SvcMode::L1t1 => 1,
            SvcMode::L1t2 => 2,
            SvcMode::L1t3 => 3,
            SvcMode::L2t1 => 4,
            SvcMode::L2t2 => 5,
            SvcMode::L2t3 => 6,
            SvcMode::L3t1 => 7,
            SvcMode::L3t2 => 8,
            SvcMode::L3t3 => 9,
            SvcMode::L2t1h => 10,
            SvcMode::L2t2h => 11,
            SvcMode::L2t3h => 12,
            SvcMode::L3t1h => 13,
            SvcMode::L3t2h => 14,
            SvcMode::L3t3h => 15,
            SvcMode::S2t1 => 16,
            SvcMode::S2t2 => 17,
            SvcMode::S2t3 => 18,
            SvcMode::S2t1h => 19,
            SvcMode::S2t2h => 20,
            SvcMode::S2t3h => 21,
            SvcMode::S3t1 => 22,
            SvcMode::S3t2 => 23,
            SvcMode::S3t3 => 24,
            SvcMode::S3t1h => 25,
            SvcMode::S3t2h => 26,
            SvcMode::S3t3h => 27,
            SvcMode::L2t2Key => 28,
            SvcMode::L2t2KeyShift => 29,
            SvcMode::L2t3Key => 30,
            SvcMode::L2t3KeyShift => 31,
            SvcMode::L3t1Key => 32,
            SvcMode::L3t2Key => 33,
            SvcMode::L3t2KeyShift => 34,
            SvcMode::L3t3Key => 35,
            SvcMode::L3t3KeyShift => 36,
        }
    }

    pub fn to_i32(self) -> (r: i32)
        ensures
            r == self.value(),
    {
        match self {
            SvcMode::Disabled => 0,
            SvcMode::L1t1 => 1,
            SvcMode::L1t2 => 2,
            SvcMode::L1t3 => 3,
            SvcMode::L2t1 => 4,
            SvcMode::L2t2 => 5,
            SvcMode::L2t3 => 6,
            SvcMode::L3t1 => 7,
            SvcMode::L3t2 => 8,
            SvcMode::L3t3 => 9,
            SvcMode::L2t1h => 10,
            SvcMode::L2t2h => 11,
            SvcMode::L2t3h => 12,
            SvcMode::L3t1h => 13,
            SvcMode::L3t2h => 14,
            SvcMode::L3t3h => 15,
            SvcMode::S2t1 => 16,
            SvcMode::S2t2 => 17,
            SvcMode::S2t3 => 18,
            SvcMode::S2t1h => 19,
            SvcMode::S2t2h => 20,
            SvcMode::S2t3h => 21,
            SvcMode::S3t1 => 22,
            SvcMode::S3t2 => 23,
            SvcMode::S3t3 => 24,
            SvcMode::S3t1h => 25,
            SvcMode::S3t2h => 26,
            SvcMode::S3t3h => 27,
            SvcMode::L2t2Key => 28,
            SvcMode::L2t2KeyShift => 29,
            SvcMode::L2t3Key => 30,
            SvcMode::L2t3KeyShift => 31,
            SvcMode::L3t1Key => 32,
            SvcMode::L3t2Key => 33,
            SvcMode::L3t2KeyShift => 34,
            SvcMode::L3t3Key => 35,
            SvcMode::L3t3KeyShift => 36,
        }
    }
}

/// Protobuf enumeration `SdkNetworkLostDetection`; `value` is its wire number.
#[derive(Clone, Copy, Debug, PartialEq, Eq, Hash)]
pub enum SdkNetworkLostDetection {
    Disabled,
    Enabled,
}

impl SdkNetworkLostDetection {
    pub open spec fn value(self) -> i32 {
        match self {
            SdkNetworkLostDetection::Disabled => 0,
            SdkNetworkLostDetection::Enabled => 1,
        }
    }

    pub fn to_i32(self) -> (r: i32)
        ensures
            r == self.value(),
    {
        match self {
            SdkNetworkLostDetection::Disabled => 0,
            SdkNetworkLostDetection::Enabled => 1,
        }
    }
}

/// Protobuf enumeration `FixedIceCandidatesPoolSize`; `value` is its wire number.
#[derive(Clone, Copy, Debug, PartialEq, Eq, Hash)]
pub enum FixedIceCandidatesPoolSize {
    Disabled,
    Enabled,
}

impl FixedIceCandidatesPoolSize {
    pub open spec fn value(self) -> i32 {
        match self {
            FixedIceCandidatesPoolSize::Disabled => 0,
            FixedIceCandidatesPoolSize::Enabled => 1,
        }
    }

    pub fn to_i32(self) -> (r: i32)
        ensures
            r == self.value(),
    {
        match self {
            FixedIceCandidatesPoolSize::Disabled => 0,
            FixedIceCandidatesPoolSize::Enabled => 1,
        }
    }
}

/// Protobuf enumeration `SubscriberOfferAsyncAck`; `value` is its wire number.
#[derive(Clone, Copy, Debug, PartialEq, Eq, Hash)]
pub enum SubscriberOfferAsyncAck {
    Disabled,
    Enabled,
}

impl SubscriberOfferAsyncAck {
    pub open spec fn value(self) -> i32 {
        match self {
            SubscriberOfferAsyncAck::Disabled => 0,
            SubscriberOfferAsyncAck::Enabled => 1,
        }
    }

    pub fn to_i32(self) -> (r: i32)
        ensures
            r == self.value(),
    {
        match self {
            SubscriberOfferAsyncAck::Disabled => 0,
            SubscriberOfferAsyncAck::Enabled => 1,
        }
    }
}

/// Protobuf enumeration `AndroidBluetoothRoutingFix`; `value` is its wire number.
#[derive(Clone, Copy, Debug, PartialEq, Eq, Hash)]
pub enum AndroidBluetoothRoutingFix {
    Enabled,
    Disabled,
}

impl AndroidBluetoothRoutingFix {
    pub open spec fn value(self) -> i32 {
        match self {
            AndroidBluetoothRoutingFix::Enabled => 0,
            AndroidBluetoothRoutingFix::Disabled => 1,
        }
    }

    pub fn to_i32(self) -> (r: i32)
        ensures
            r == self.value(),
    {
        match self {
            AndroidBluetoothRoutingFix::Enabled => 0,
            AndroidBluetoothRoutingFix::Disabled => 1,
        }
    }
}

/// Protobuf enumeration `SdkAndroidTelecomIntegration`; `value` is its wire number.
#[derive(Clone, Copy, Debug, PartialEq, Eq, Hash)]
pub enum SdkAndroidTelecomIntegration {
    Enabled,
    Disabled,
}

impl SdkAndroidTelecomIntegration {
    pub open spec fn value(self) -> i32 {
        match self {
            SdkAndroidTelecomIntegration::Enabled => 0,
            SdkAndroidTelecomIntegration::Disabled => 1,
        }
    }

    pub fn to_i32(self) -> (r: i32)
        ensures
            r == self.value(),
    {
        match self {
            SdkAndroidTelecomIntegration::Enabled => 0,
            SdkAndroidTelecomIntegration::Disabled => 1,
        }
    }
}

/// Protobuf enumeration `SetActiveCodecsMode`; `value` is its wire number.
#[derive(Clone, Copy, Debug, PartialEq, Eq, Hash)]
pub enum SetActiveCodecsMode {
    Disabled,
    VideoOnly,
    AudioOnly,
    AudioAndVideo,
}

impl SetActiveCodecsMode {
    pub open spec fn value(self) -> i32 {
        match self {
            SetActiveCodecsMode::Disabled => 0,
            SetActiveCodecsMode::VideoOnly => 1,
            SetActiveCodecsMode::AudioOnly => 2,
            SetActiveCodecsMode::AudioAndVideo => 3,
        }
    }

    pub fn to_i32(self) -> (r: i32)
        ensures
            r == self.value(),
    {
        match self {
            SetActiveCodecsMode::Disabled => 0,
            SetActiveCodecsMode::VideoOnly => 1,
            SetActiveCodecsMode::AudioOnly => 2,
            SetActiveCodecsMode::AudioAndVideo => 3,
        }
    }
}

/// Protobuf enumeration `SubscriberDtlsPassiveMode`; `value` is its wire number.
#[derive(Clone, Copy, Debug, PartialEq, Eq, Hash)]
pub enum SubscriberDtlsPassiveMode {
    Disabled,
    Enabled,
}

impl SubscriberDtlsPassiveMode {
    pub open spec fn value(self) -> i32 {
        match self {
            SubscriberDtlsPassiveMode::Disabled => 0,
            SubscriberDtlsPassiveMode::Enabled => 1,
        }
    }

    pub fn to_i32(self) -> (r: i32)
        ensures
            r == self.value(),
    {
        match self {
            SubscriberDtlsPassiveMode::Disabled => 0,
            SubscriberDtlsPassiveMode::Enabled => 1,
        }
    }
}

/// Protobuf enumeration `PublisherOpusLowBitrate`; `value` is its wire number.
#[derive(Clone, Copy, Debug, PartialEq, Eq, Hash)]
pub enum PublisherOpusLowBitrate {
    Disabled,
    Enabled,
}

impl PublisherOpusLowBitrate {
    pub open spec fn value(self) -> i32 {
        match self {
            PublisherOpusLowBitrate::Disabled => 0,
            PublisherOpusLowBitrate::Enabled => 1,
        }
    }

    pub fn to_i32(self) -> (r: i32)
        ensures
            r == self.value(),
    {
        match self {
            PublisherOpusLowBitrate::Disabled => 0,
            PublisherOpusLowBitrate::Enabled => 1,
        }
    }
}

/// Protobuf enumeration `PublisherOpusDred`; `value` is its wire number.
#[derive(Clone, Copy, Debug, PartialEq, Eq, Hash)]
pub enum PublisherOpusDred {
    Disabled,
    Enabled,
}

impl PublisherOpusDred {
    pub open spec fn value(self) -> i32 {
        match self {
            PublisherOpusDred::Disabled => 0,
            PublisherOpusDred::Enabled => 1,
        }
    }

    pub fn to_i32(self) -> (r: i32)
        ensures
            r == self.value(),
    {
        match self {
            PublisherOpusDred::Disabled => 0,
            PublisherOpusDred::Enabled => 1,
        }
    }
}

/// Protobuf enumeration `SdkAndroidDestroySessionOnTaskRemoved`; `value` is its wire number.
#[derive(Clone, Copy, Debug, PartialEq, Eq, Hash)]
pub enum SdkAndroidDestroySessionOnTaskRemoved {
    Disabled,
    Enabled,
}

impl SdkAndroidDestroySessionOnTaskRemoved {
    pub open spec fn value(self) -> i32 {
        match self {
            SdkAndroidDestroySessionOnTaskRemoved::Disabled => 0,
            SdkAndroidDestroySessionOnTaskRemoved::Enabled => 1,
        }
    }

    pub fn to_i32(self) -> (r: i32)
        ensures
            r == self.value(),
    {
        match self {
            SdkAndroidDestroySessionOnTaskRemoved::Disabled => 0,
            SdkAndroidDestroySessionOnTaskRemoved::Enabled => 1,
        }
    }
}

/// Protobuf enumeration `WebrtcSdpType`; `value` is its wire number.
#[derive(Clone, Copy, Debug, PartialEq, Eq, Hash)]
pub enum WebrtcSdpType {
    Unspecified,
    Offer,
    Answer,
    Reject,
    OfferClose,
}

impl WebrtcSdpType {
    pub open spec fn value(self) -> i32 {
        match self {
            WebrtcSdpType::Unspecified => 0,
            WebrtcSdpType::Offer => 1,
            WebrtcSdpType::Answer => 2,
            WebrtcSdpType::Reject => 3,
            WebrtcSdpType::OfferClose => 4,
        }
    }

    pub fn to_i32(self) -> (r: i32)
        ensures
            r == self.value(),
    {
        match self {
            WebrtcSdpType::Unspecified => 0,
            WebrtcSdpType::Offer => 1,
            WebrtcSdpType::Answer => 2,
            WebrtcSdpType::Reject => 3,
            WebrtcSdpType::OfferClose => 4,
        }
    }
}

/// Protobuf enumeration `StatusCode`; `value` is its wire number.
#[derive(Clone, Copy, Debug, PartialEq, Eq, Hash)]
pub enum StatusCode {
    Unspecified,
    Success,
    UnknownError,
    NotAllowed,
    BadDescription,
    BadCandidate,
    UnknownMessage,
    ConnectionClose,
    RemoteDescriptionRejected,
    LocalDescriptionRejected,
    TelemetryProcessingError,
    AckTimeoutError,
    PermissionDenied,
    AuthProviderIsNotAvailable,
    HelloShouldBeFirst,
    UnsupportedCapabilities,
    KickedOut,
    FoundActiveSession,
    ParticipantConnectionIdMismatch,
    ValidationError,
    Timeout,
    RoomHasBeenClosed,
    RoomHasBeenClosedByTimeout,
    RoomHasBeenUnexpectedlyClosed,
    MoveToNewMediaServer,
    RoomIsClosing,
    NetworkLost,
    TooManyMessages,
    WebsocketClosedWithoutCode,
    InitClientError,
    UserEventHandlerError,
    RequestDevicesError,
    ApplyingDevicesError,
    MediaStreamTrackError,
    DeviceChangeStateError,
    FourKSharingError,
    CapabilitiesDetectingError,
    SignalingFailed,
    PublisherFailed,
    SubscriberFailed,
    NoiseCancellationError,
    VideoProcessingError,
    DevicesNotFound,
    DeviceBusy,
    DeviceOverconstrained,
    DeviceDeniedByUser,
    DeviceDeniedBySystem,
    DeviceNotReady,
    ApplyingOutputDevicesError,
    IceCandidateErrorTryAlternate,
    IceCandidateErrorBadRequest,
    IceCandidateErrorUnauthenticated,
    IceCandidateErrorForbidden,
    IceCandidateErrorMobilityForbidden,
    IceCandidateErrorUnknownAttribute,
    IceCandidateErrorAllocationMismatch,
    IceCandidateErrorStaleNonce,
    IceCandidateErrorAddressFamilyNotSupported,
    IceCandidateErrorWrongCredentials,
    IceCandidateErrorUnsupportedTransportProtocol,
    IceCandidateErrorPeerAddressFamilyMismatch,
    IceCandidateErrorConnectionAlreadyExists,
    IceCandidateErrorConnectionTimeoutOrFailure,
    IceCandidateErrorAllocationQuotaReached,
    IceCandidateErrorRoleConflict,
    IceCandidateErrorServerError,
    IceCandidateErrorInsufficientCapacity,
    IceCandidateErrorNoHostCandidateCanReachTheServer,
    IceCandidateErrorUnknown,
}

impl StatusCode {
    pub open spec fn value(self) -> i32 {
        match self {
            StatusCode::Unspecified => 0,
            StatusCode::Success => 1,
            StatusCode::UnknownError => 2,
            StatusCode::NotAllowed => 3,
            StatusCode::BadDescription => 4,
            StatusCode::BadCandidate => 5,
            StatusCode::UnknownMessage => 6,
            StatusCode::ConnectionClose => 7,
            StatusCode::RemoteDescriptionRejected => 8,
            StatusCode::LocalDescriptionRejected => 9,
            StatusCode::TelemetryProcessingError => 10,
            StatusCode::AckTimeoutError => 3106,
            StatusCode::PermissionDenied => 4000,
            StatusCode::AuthProviderIsNotAvailable => 4001,
            StatusCode::HelloShouldBeFirst => 4002,
            StatusCode::UnsupportedCapabilities => 4003,
            StatusCode::KickedOut => 4004,
            StatusCode::FoundActiveSession => 4005,
            StatusCode::ParticipantConnectionIdMismatch => 4006,
            StatusCode::ValidationError => 4007,
            StatusCode::Timeout => 4008,
            StatusCode::RoomHasBeenClosed => 4009,
            StatusCode::RoomHasBeenClosedByTimeout => 4010,
            StatusCode::RoomHasBeenUnexpectedlyClosed => 4011,
            StatusCode::MoveToNewMediaServer => 4100,
            StatusCode::RoomIsClosing => 4101,
            StatusCode::NetworkLost => 4102,
            StatusCode::TooManyMessages => 4103,
            StatusCode::WebsocketClosedWithoutCode => 4104,
            StatusCode::InitClientError => 5000,
            StatusCode::UserEventHandlerError => 5001,
            StatusCode::RequestDevicesError => 5002,
            StatusCode::ApplyingDevicesError => 5003,
            StatusCode::MediaStreamTrackError => 5004,
            StatusCode::DeviceChangeStateError => 5005,
            StatusCode::FourKSharingError => 5006,
            StatusCode::CapabilitiesDetectingError => 5007,
            StatusCode::SignalingFailed => 5008,
            StatusCode::PublisherFailed => 5009,
            StatusCode::SubscriberFailed => 5010,
            StatusCode::NoiseCancellationError => 5018,
            StatusCode::VideoProcessingError => 5019,
            StatusCode::DevicesNotFound => 5011,
            StatusCode::DeviceBusy => 5012,
            StatusCode::DeviceOverconstrained => 5013,
            StatusCode::DeviceDeniedByUser => 5014,
            StatusCode::DeviceDeniedBySystem => 5015,
            StatusCode::DeviceNotReady => 5016,
            StatusCode::ApplyingOutputDevicesError => 5017,
            StatusCode::IceCandidateErrorTryAlternate => 6300,
            StatusCode::IceCandidateErrorBadRequest => 6400,
            StatusCode::IceCandidateErrorUnauthenticated => 6401,
            StatusCode::IceCandidateErrorForbidden => 6403,
            StatusCode::IceCandidateErrorMobilityForbidden => 6405,
            StatusCode::IceCandidateErrorUnknownAttribute => 6420,
            StatusCode::IceCandidateErrorAllocationMismatch => 6437,
            StatusCode::IceCandidateErrorStaleNonce => 6438,
            StatusCode::IceCandidateErrorAddressFamilyNotSupported => 6440,
            StatusCode::IceCandidateErrorWrongCredentials => 6441,
            StatusCode::IceCandidateErrorUnsupportedTransportProtocol => 6442,
            StatusCode::IceCandidateErrorPeerAddressFamilyMismatch => 6443,
            StatusCode::IceCandidateErrorConnectionAlreadyExists => 6446,
            StatusCode::IceCandidateErrorConnectionTimeoutOrFailure => 6447,
            StatusCode::IceCandidateErrorAllocationQuotaReached => 6486,
            StatusCode::IceCandidateErrorRoleConflict => 6487,
            StatusCode::IceCandidateErrorServerError => 6500,
            StatusCode::IceCandidateErrorInsufficientCapacity => 6508,
            StatusCode::IceCandidateErrorNoHostCandidateCanReachTheServer => 6701,
            StatusCode::IceCandidateErrorUnknown => 6799,
        }
    }

    pub fn to_i32(self) -> (r: i32)
        ensures
            r == self.value(),
    {
        match self {
            StatusCode::Unspecified => 0,
            StatusCode::Success => 1,
            StatusCode::UnknownError => 2,
            StatusCode::NotAllowed => 3,
            StatusCode::BadDescription => 4,
            StatusCode::BadCandidate => 5,
            StatusCode::UnknownMessage => 6,
            StatusCode::ConnectionClose => 7,
            StatusCode::RemoteDescriptionRejected => 8,
            StatusCode::LocalDescriptionRejected => 9,
            StatusCode::TelemetryProcessingError => 10,
            StatusCode::AckTimeoutError => 3106,
            StatusCode::PermissionDenied => 4000,
            StatusCode::AuthProviderIsNotAvailable => 4001,
            StatusCode::HelloShouldBeFirst => 4002,
            StatusCode::UnsupportedCapabilities => 4003,
            StatusCode::KickedOut => 4004,
            StatusCode::FoundActiveSession => 4005,
            StatusCode::ParticipantConnectionIdMismatch => 4006,
            StatusCode::ValidationError => 4007,
            StatusCode::Timeout => 4008,
            StatusCode::RoomHasBeenClosed => 4009,
            StatusCode::RoomHasBeenClosedByTimeout => 4010,
            StatusCode::RoomHasBeenUnexpectedlyClosed => 4011,
            StatusCode::MoveToNewMediaServer => 4100,
            StatusCode::RoomIsClosing => 4101,
            StatusCode::NetworkLost => 4102,
            StatusCode::TooManyMessages => 4103,
            StatusCode::WebsocketClosedWithoutCode => 4104,
            StatusCode::InitClientError => 5000,
            StatusCode::UserEventHandlerError => 5001,
            StatusCode::RequestDevicesError => 5002,
            StatusCode::ApplyingDevicesError => 5003,
            StatusCode::MediaStreamTrackError => 5004,
            StatusCode::DeviceChangeStateError => 5005,
            StatusCode::FourKSharingError => 5006,
            StatusCode::CapabilitiesDetectingError => 5007,
            StatusCode::SignalingFailed => 5008,
            StatusCode::PublisherFailed => 5009,
            StatusCode::SubscriberFailed => 5010,
            StatusCode::NoiseCancellationError => 5018,
            StatusCode::VideoProcessingError => 5019,
            StatusCode::DevicesNotFound => 5011,
            StatusCode::DeviceBusy => 5012,
            StatusCode::DeviceOverconstrained => 5013,
            StatusCode::DeviceDeniedByUser => 5014,
            StatusCode::DeviceDeniedBySystem => 5015,
            StatusCode::DeviceNotReady => 5016,
            StatusCode::ApplyingOutputDevicesError => 5017,
            StatusCode::IceCandidateErrorTryAlternate => 6300,
            StatusCode::IceCandidateErrorBadRequest => 6400,
            StatusCode::IceCandidateErrorUnauthenticated => 6401,
            StatusCode::IceCandidateErrorForbidden => 6403,
            StatusCode::IceCandidateErrorMobilityForbidden => 6405,
            StatusCode::IceCandidateErrorUnknownAttribute => 6420,
            StatusCode::IceCandidateErrorAllocationMismatch => 6437,
            StatusCode::IceCandidateErrorStaleNonce => 6438,
            StatusCode::IceCandidateErrorAddressFamilyNotSupported => 6440,
            StatusCode::IceCandidateErrorWrongCredentials => 6441,
            StatusCode::IceCandidateErrorUnsupportedTransportProtocol => 6442,
            StatusCode::IceCandidateErrorPeerAddressFamilyMismatch => 6443,
            StatusCode::IceCandidateErrorConnectionAlreadyExists => 6446,
            StatusCode::IceCandidateErrorConnectionTimeoutOrFailure => 6447,
            StatusCode::IceCandidateErrorAllocationQuotaReached => 6486,
            StatusCode::IceCandidateErrorRoleConflict => 6487,
            StatusCode::IceCandidateErrorServerError => 6500,
            StatusCode::IceCandidateErrorInsufficientCapacity => 6508,
            StatusCode::IceCandidateErrorNoHostCandidateCanReachTheServer => 6701,
            StatusCode::IceCandidateErrorUnknown => 6799,
        }
    }
}

/// Protobuf enumeration `MediaTrackKind`; `value` is its wire number.
#[derive(Clone, Copy, Debug, PartialEq, Eq, Hash)]
pub enum MediaTrackKind {
    Unspecified,
    Unknown,
    Audio,
    Video,
    DisplayAudio,
    DisplayVideo,
}

impl MediaTrackKind {
    pub open spec fn value(self) -> i32 {
        match self {
            MediaTrackKind::Unspecified => 0,
            MediaTrackKind::Unknown => 1,
            MediaTrackKind::Audio => 2,
            MediaTrackKind::Video => 3,
            MediaTrackKind::DisplayAudio => 4,
            MediaTrackKind::DisplayVideo => 5,
        }
    }

    pub fn to_i32(self) -> (r: i32)
        ensures
            r == self.value(),
    {
        match self {
            MediaTrackKind::Unspecified => 0,
            MediaTrackKind::Unknown => 1,
            MediaTrackKind::Audio => 2,
            MediaTrackKind::Video => 3,
            MediaTrackKind::DisplayAudio => 4,
            MediaTrackKind::DisplayVideo => 5,
        }
    }
}

/// Protobuf enumeration `ConnectionType`; `value` is its wire number.
#[derive(Clone, Copy, Debug, PartialEq, Eq, Hash)]
pub enum ConnectionType {
    Unspecified,
    Sdk,
    Whip,
    Sip,
    Pstn,
}

impl ConnectionType {
    pub open spec fn value(self) -> i32 {
        match self {
            ConnectionType::Unspecified => 0,
            ConnectionType::Sdk => 1,
            ConnectionType::Whip => 2,
            ConnectionType::Sip => 3,
            ConnectionType::Pstn => 4,
        }
    }

    pub fn to_i32(self) -> (r: i32)
        ensures
            r == self.value(),
    {
        match self {
            ConnectionType::Unspecified => 0,
            ConnectionType::Sdk => 1,
            ConnectionType::Whip => 2,
            ConnectionType::Sip => 3,
            ConnectionType::Pstn => 4,
        }
    }
}

/// Protobuf enumeration `NetworkQualityScore`; `value` is its wire number.
#[derive(Clone, Copy, Debug, PartialEq, Eq, Hash)]
pub enum NetworkQualityScore {
    Unspecified,
    Poor,
    Good,
    Excellent,
}

impl NetworkQualityScore {
    pub open spec fn value(self) -> i32 {
        match self {
            NetworkQualityScore::Unspecified => 0,
            NetworkQualityScore::Poor => 1,
            NetworkQualityScore::Good => 2,
            NetworkQualityScore::Excellent => 3,
        }
    }

    pub fn to_i32(self) -> (r: i32)
        ensures
            r == self.value(),
    {
        match self {
            NetworkQualityScore::Unspecified => 0,
            NetworkQualityScore::Poor => 1,
            NetworkQualityScore::Good => 2,
            NetworkQualityScore::Excellent => 3,
        }
    }
}

/// Protobuf enumeration `VideoCodec`; `value` is its wire number.
#[derive(Clone, Copy, Debug, PartialEq, Eq, Hash)]
pub enum VideoCodec {
    Vp8,
    H264,
    Vp9,
}

impl VideoCodec {
    pub open spec fn value(self) -> i32 {
        match self {
            VideoCodec::Vp8 => 0,
            VideoCodec::H264 => 1,
            VideoCodec::Vp9 => 2,
        }
    }

    pub fn to_i32(self) -> (r: i32)
        ensures
            r == self.value(),
    {
        match self {
            VideoCodec::Vp8 => 0,
            VideoCodec::H264 => 1,
            VideoCodec::Vp9 => 2,
        }
    }
}

/// Protobuf enumeration `AudioCodec`; `value` is its wire number.
#[derive(Clone, Copy, Debug, PartialEq, Eq, Hash)]
pub enum AudioCodec {
    Opus14,
    Opus15,
}

impl AudioCodec {
    pub open spec fn value(self) -> i32 {
        match self {
            AudioCodec::Opus14 => 0,
            AudioCodec::Opus15 => 1,
        }
    }

    pub fn to_i32(self) -> (r: i32)
        ensures
            r == self.value(),
    {
        match self {
            AudioCodec::Opus14 => 0,
            AudioCodec::Opus15 => 1,
        }
    }
}

/// Protobuf enumeration `ComponentType`; `value` is its wire number.
#[derive(Clone, Copy, Debug, PartialEq, Eq, Hash)]
pub enum ComponentType {
    Border,
    WebrtcServer,
    Controller,
}

impl ComponentType {
    pub open spec fn value(self) -> i32 {
        match self {
            ComponentType::Border => 0,
            ComponentType::WebrtcServer => 1,
            ComponentType::Controller => 2,
        }
    }

    pub fn to_i32(self) -> (r: i32)
        ensures
            r == self.value(),
    {
        match self {
            ComponentType::Border => 0,
            ComponentType::WebrtcServer => 1,
            ComponentType::Controller => 2,
        }
    }
}

/// Protobuf enumeration `MediaLimitationReason`; `value` is its wire number.
#[derive(Clone, Copy, Debug, PartialEq, Eq, Hash)]
pub enum MediaLimitationReason {
    Unspecified,
    NoLimitation,
    RoomSize,
    Bandwidth,
    ByUser,
    UnsupportedCodec,
}

impl MediaLimitationReason {
    pub open spec fn value(self) -> i32 {
        match self {
            MediaLimitationReason::Unspecified => 0,
            MediaLimitationReason::NoLimitation => 1,
            MediaLimitationReason::RoomSize => 2,
            MediaLimitationReason::Bandwidth => 3,
            MediaLimitationReason::ByUser => 4,
            MediaLimitationReason::UnsupportedCodec => 5,
        }
    }

    pub fn to_i32(self) -> (r: i32)
        ensures
            r == self.value(),
    {
        match self {
            MediaLimitationReason::Unspecified => 0,
            MediaLimitationReason::NoLimitation => 1,
            MediaLimitationReason::RoomSize => 2,
            MediaLimitationReason::Bandwidth => 3,
            MediaLimitationReason::ByUser => 4,
            MediaLimitationReason::UnsupportedCodec => 5,
        }
    }
}

/// Protobuf enumeration `SelfViewVisibility`; `value` is its wire number.
#[derive(Clone, Copy, Debug, PartialEq, Eq, Hash)]
pub enum SelfViewVisibility {
    Unspecified,
    Show,
    Hide,
    OnLoadingThenShow,
    OnLoadingThenHide,
}

impl SelfViewVisibility {
    pub open spec fn value(self) -> i32 {
        match self {
            SelfViewVisibility::Unspecified => 0,
            SelfViewVisibility::Show => 1,
            SelfViewVisibility::Hide => 2,
            SelfViewVisibility::OnLoadingThenShow => 3,
            SelfViewVisibility::OnLoadingThenHide => 4,
        }
    }

    pub fn to_i32(self) -> (r: i32)
        ensures
            r == self.value(),
    {
        match self {
            SelfViewVisibility::Unspecified => 0,
            SelfViewVisibility::Show => 1,
            SelfViewVisibility::Hide => 2,
            SelfViewVisibility::OnLoadingThenShow => 3,
            SelfViewVisibility::OnLoadingThenHide => 4,
        }
    }
}

/// Protobuf enumeration `IceTarget`; `value` is its wire number.
#[derive(Clone, Copy, Debug, PartialEq, Eq, Hash)]
pub enum IceTarget {
    Unspecified,
    Publisher,
    Subscriber,
}

impl IceTarget {
    pub open spec fn value(self) -> i32 {
        match self {
            IceTarget::Unspecified => 0,
            IceTarget::Publisher => 1,
            IceTarget::Subscriber => 2,
        }
    }

    pub fn to_i32(self) -> (r: i32)
        ensures
            r == self.value(),
    {
        match self {
            IceTarget::Unspecified => 0,
            IceTarget::Publisher => 1,
            IceTarget::Subscriber => 2,
        }
    }
}

/// Protobuf `oneof` `PublisherTrackTransport`.
#[derive(Clone, Debug, PartialEq)]
pub enum PublisherTrackTransport {
    TransceiverMid(String),
    DcLabel(String),
}

/// Protobuf `oneof` `HelloAuth`.
#[derive(Clone, Debug, PartialEq)]
pub enum HelloAuth {
    Credentials(String),
    SessionSecret(String),
}

/// Protobuf `oneof` `SlotsConfigSlotKind`.
#[derive(Clone, Debug, PartialEq)]
pub enum SlotsConfigSlotKind {
    Empty(GridLayoutConfig),
    SelfView(GridLayoutConfig),
    Participant(SlotParticipant),
    ParticipantVideoByMid(SlotParticipantVideoByMid),
    ParticipantScreenSharingByDataChannel(SlotParticipant),
    ParticipantScreenSharingByMid(SlotParticipantVideoByMid),
}

/// Protobuf `oneof` `SlotsConfigView`.
#[derive(Clone, Debug, PartialEq)]
pub enum SlotsConfigView {
    GridConfig(GridLayoutConfig),
    NLastConfig(NLastLayoutConfig),
    JoinOrderConfig(JoinOrderLayoutConfig),
    PinConfig(PinLayoutConfig),
}

/// Protobuf `oneof` `MessageKind`.
#[derive(Clone, Debug, PartialEq)]
pub enum MessageKind {
    Hello(Hello),
    ServerHello(ServerHello),
    SfuHello(SfuHello),
    Ack(Ack),
    Ping(ProtoEmpty),
    ClientError(ClientError),
    SetSlotsOffset(SetSlotsOffset),
    RequestPinnedParticipants(RequestPinnedParticipants),
    SetSlots(SetSlots),
    SlotsConfig(SlotsConfig),
    SlotsMeta(SlotsMeta),
    VadActivity(VadActivity),
    UpdateMe(UpdateParticipantMeta),
    UpdateDescription(UpdateDescription),
    UpsertDescription(UpsertDescription),
    RemoveDescription(RemoveDescription),
    UpsertQuality(UpsertParticipantsQualityReport),
    SelfQuality(SelfQualityReport),
    ClientSideVad(ClientSideVadActivity),
    PublisherSdpOffer(PublisherSdpOffer),
    SubscriberSdpAnswer(SubscriberSdpAnswer),
    RequestSubscription(RequestSubscription),
    UpdatePublisherTrack(UpdatePublisherTrackDescription),
    PublisherSdpAnswer(PublisherSdpAnswer),
    SubscriberSdpOffer(SubscriberSdpOffer),
    IceCandidate(WebrtcIceCandidate),
    Notification(GoloomNotification),
    SetActiveCodecs(SetActiveCodecs),
}

/// `capabilities.CapabilitiesOffer`: the capabilities the client claims; each field lists the accepted values of one enumeration.
#[derive(Clone, Debug, PartialEq)]
pub struct CapabilitiesOffer {
    pub offer_answer_mode: Vec<i32>,
    pub initial_subscriber_offer: Vec<i32>,
    pub slots_mode: Vec<i32>,
    pub simulcast_mode: Vec<i32>,
    pub self_vad_status: Vec<i32>,
    pub data_channel_sharing: Vec<i32>,
    pub video_encoder_config: Vec<i32>,
    pub data_channel_video_codec: Vec<i32>,
    pub bandwidth_limitation_reason: Vec<i32>,
    pub server_layout_transition: Vec<i32>,
    pub pin_layout: Vec<i32>,
    pub join_order_layout: Vec<i32>,
    pub send_self_view_video_slot: Vec<i32>,
    pub sdk_default_device_management: Vec<i32>,
    pub sdk_publisher_optimize_bitrate: Vec<i32>,
    pub sdk_network_path_monitor: Vec<i32>,
    pub publisher_vp9: Vec<i32>,
    pub svc_mode: Vec<i32>,
    pub sdk_network_lost_detection: Vec<i32>,
    pub fixed_ice_candidates_pool_size: Vec<i32>,
    pub subscriber_offer_async_ack: Vec<i32>,
    pub android_bluetooth_routing_fix: Vec<i32>,
    pub sdk_android_telecom_integration: Vec<i32>,
    pub set_active_codecs_mode: Vec<i32>,
    pub subscriber_dtls_passive_mode: Vec<i32>,
    pub publisher_opus_low_bitrate: Vec<i32>,
    pub publisher_opus_dred: Vec<i32>,
    pub sdk_android_destroy_session_on_task_removed: Vec<i32>,
}

/// `capabilities.CapabilitiesAnswer`: the server's choice for each capability.
#[derive(Clone, Debug, PartialEq)]
pub struct CapabilitiesAnswer {
    pub offer_answer_mode: i32,
    pub initial_subscriber_offer: i32,
    pub slots_mode: i32,
    pub simulcast_mode: i32,
    pub self_vad_status: i32,
    pub data_channel_sharing: i32,
    pub video_encoder_config: i32,
    pub data_channel_video_codec: i32,
    pub bandwidth_limitation_reason: i32,
    pub server_layout_transition: i32,
    pub pin_layout: i32,
    pub join_order_layout: i32,
    pub send_self_view_video_slot: i32,
    pub sdk_default_device_management: i32,
    pub sdk_publisher_optimize_bitrate: i32,
    pub sdk_network_path_monitor: i32,
    pub publisher_vp9: i32,
    pub svc_mode: i32,
    pub sdk_network_lost_detection: i32,
    pub fixed_ice_candidates_pool_size: i32,
    pub subscriber_offer_async_ack: i32,
    pub android_bluetooth_routing_fix: i32,
    pub sdk_android_telecom_integration: i32,
    pub set_active_codecs_mode: i32,
    pub subscriber_dtls_passive_mode: i32,
    pub publisher_opus_low_bitrate: i32,
    pub publisher_opus_dred: i32,
    pub sdk_android_destroy_session_on_task_removed: i32,
}

/// Protobuf message `Status`.
#[derive(Clone, Debug, PartialEq)]
pub struct Status {
    pub code: i32,
    pub description: Option<String>,
}

/// Protobuf message `Ack`.
#[derive(Clone, Debug, PartialEq)]
pub struct Ack {
    pub status: Option<Status>,
}

/// Error report sent by the client; the timestamp is milliseconds since the Unix epoch.
#[derive(Clone, Debug, PartialEq)]
pub struct ClientError {
    pub code: i32,
    pub description: String,
    pub details: Vec<(String, String)>,
    pub client_timestamp_ms: u64,
}

/// Roster entry of one participant. `participant_attributes` is the protobuf map as key/value pairs.
#[derive(Clone, Debug, PartialEq)]
pub struct ParticipantDescription {
    pub id: String,
    pub participant_attributes: Vec<(String, String)>,
    pub send_audio: bool,
    pub send_video: bool,
    pub send_sharing: bool,
    pub hide_from_participants_list: bool,
    pub disconnected_at: Option<u32>,
    pub network_score: i32,
    pub connection_type: i32,
    pub ref_participant_id: Option<String>,
}

/// Protobuf message `CodecCapability`.
#[derive(Clone, Debug, PartialEq)]
pub struct CodecCapability {
    pub mime_type: String,
    pub clock_rate: u32,
    pub channels: u32,
    pub sdp_fmtp_line: String,
}

/// Protobuf message `PublisherTrackDescription`.
#[derive(Clone, Debug, PartialEq)]
pub struct PublisherTrackDescription {
    pub transport: Option<PublisherTrackTransport>,
    pub kind: i32,
    pub label: String,
    pub description: String,
    pub group_id: Option<u32>,
    pub codecs: Vec<(u32, CodecCapability)>,
}

/// Protobuf message `SubscriberTrackDescription`.
#[derive(Clone, Debug, PartialEq)]
pub struct SubscriberTrackDescription {
    pub mid: String,
    pub track_description_id: String,
    pub kind: i32,
}

/// Protobuf message `PublisherSdpOffer`.
#[derive(Clone, Debug, PartialEq)]
pub struct PublisherSdpOffer {
    pub pc_seq: u32,
    pub sdp: String,
    pub tracks: Vec<PublisherTrackDescription>,
}

/// Protobuf message `PublisherSdpAnswer`.
#[derive(Clone, Debug, PartialEq)]
pub struct PublisherSdpAnswer {
    pub pc_seq: u32,
    pub sdp: String,
}

/// Protobuf message `SubscriberSdpOffer`.
#[derive(Clone, Debug, PartialEq)]
pub struct SubscriberSdpOffer {
    pub pc_seq: u32,
    pub sdp: String,
}

/// Protobuf message `SubscriberSdpAnswer`.
#[derive(Clone, Debug, PartialEq)]
pub struct SubscriberSdpAnswer {
    pub pc_seq: u32,
    pub sdp: String,
}

/// Protobuf message `WebrtcIceCandidate`.
#[derive(Clone, Debug, PartialEq)]
pub struct WebrtcIceCandidate {
    pub pc_seq: u32,
    pub target: i32,
    pub candidate: String,
    pub sdp_mid: Option<String>,
    pub sdp_mline_index: Option<u32>,
    pub username_fragment: Option<String>,
}

/// Protobuf message `UpdateDescription`.
#[derive(Clone, Debug, PartialEq)]
pub struct UpdateDescription {
    pub description: Vec<ParticipantDescription>,
}

/// Protobuf message `UpsertDescription`.
#[derive(Clone, Debug, PartialEq)]
pub struct UpsertDescription {
    pub description: Vec<ParticipantDescription>,
}

/// Protobuf message `RemoveDescription`.
#[derive(Clone, Debug, PartialEq)]
pub struct RemoveDescription {
    pub description_id: Vec<String>,
}

/// Protobuf message `SdkInfo`.
#[derive(Clone, Debug, PartialEq)]
pub struct SdkInfo {
    pub implementation: String,
    pub version: String,
    pub webrtc_version: Option<String>,
    pub user_agent: String,
    pub hw_concurrency: i32,
}

/// First message of every signaling session.
#[derive(Clone, Debug, PartialEq)]
pub struct Hello {
    pub service_name: String,
    pub room_id: String,
    pub participant_id: String,
    pub auth: Option<HelloAuth>,
    pub participant_attributes: Vec<(String, String)>,
    pub send_audio: bool,
    pub send_video: bool,
    pub send_sharing: bool,
    pub disable_subscriber: bool,
    pub disable_subscriber_audio: bool,
    pub disable_publisher: bool,
    pub capabilities_offer: Option<CapabilitiesOffer>,
    pub sdk_info: Option<SdkInfo>,
    pub sdk_initialization_id: String,
    pub signaling_close_code: Option<i32>,
    pub ref_participant_id: Option<String>,
}

/// Protobuf message `RtcIceServer`.
#[derive(Clone, Debug, PartialEq)]
pub struct RtcIceServer {
    pub urls: Vec<String>,
    pub credential: String,
    pub username: String,
}

/// Protobuf message `RtcConfiguration`.
#[derive(Clone, Debug, PartialEq)]
pub struct RtcConfiguration {
    pub ice_servers: Vec<RtcIceServer>,
    pub ice_transport_policy: Option<String>,
    pub ice_candidate_pool_size: Option<i32>,
    pub bundle_policy: Option<String>,
    pub rtcp_mux_policy: Option<String>,
}

/// Protobuf message `PingPongConfiguration`.
#[derive(Clone, Debug, PartialEq)]
pub struct PingPongConfiguration {
    pub ping_interval: u32,
    pub ack_timeout: u32,
}

/// Protobuf message `TelemetryConfiguration`.
#[derive(Clone, Debug, PartialEq)]
pub struct TelemetryConfiguration {
    pub sending_interval: u32,
}

/// A backend component that serves the session.
#[derive(Clone, Debug, PartialEq)]
pub struct ServingComponent {
    pub component_type: i32,
    pub host: String,
    pub version: String,
}

/// Server answer to `Hello`: ICE servers, session secret, heartbeat periods.
#[derive(Clone, Debug, PartialEq)]
pub struct ServerHello {
    pub capabilities_answer: Option<CapabilitiesAnswer>,
    pub serving_components: Vec<ServingComponent>,
    pub session_secret: String,
    pub sfu_peer_initialization_id: String,
    pub rtc_configuration: Option<RtcConfiguration>,
    pub log_endpoint: String,
    pub ping_pong_configuration: Option<PingPongConfiguration>,
    pub telemetry_configuration: Option<TelemetryConfiguration>,
    pub exclude_from_experiments: bool,
    pub active_codecs: Option<SetActiveCodecs>,
}

/// Protobuf message `SfuHello`.
#[derive(Clone, Debug, PartialEq)]
pub struct SfuHello {
    pub sfu_peer_initialization_id: String,
}

/// Protobuf message `UpdateParticipantMeta`.
#[derive(Clone, Debug, PartialEq)]
pub struct UpdateParticipantMeta {
    pub participant_attributes: Vec<(String, String)>,
    pub send_audio: bool,
    pub send_video: bool,
    pub send_sharing: bool,
}

/// Protobuf message `UpdatePublisherTrackDescription`.
#[derive(Clone, Debug, PartialEq)]
pub struct UpdatePublisherTrackDescription {
    pub publisher_track_descriptions: Vec<PublisherTrackDescription>,
}

/// Protobuf message `VideoSlot`.
#[derive(Clone, Debug, PartialEq)]
pub struct VideoSlot {
    pub width: i32,
    pub height: i32,
}

/// Protobuf message `RequestSubscription`.
#[derive(Clone, Debug, PartialEq)]
pub struct RequestSubscription {
    pub force_new_peer_connnection: bool,
    pub force_new_peer_connection: bool,
}

/// Protobuf message `SetSlotsOffset`.
#[derive(Clone, Debug, PartialEq)]
pub struct SetSlotsOffset {
    pub offset: u32,
}

/// Protobuf message `SlotsMeta`.
#[derive(Clone, Debug, PartialEq)]
pub struct SlotsMeta {
    pub max_offset: Option<u32>,
}

/// Protobuf message `RequestPinnedParticipants`.
#[derive(Clone, Debug, PartialEq)]
pub struct RequestPinnedParticipants {
    pub participants_id: Vec<String>,
}

/// Protobuf message `SetSlots`.
#[derive(Clone, Debug, PartialEq)]
pub struct SetSlots {
    pub key: u32,
    pub slots: Vec<VideoSlot>,
    pub shutdown_all_video: bool,
    pub self_view_visibility: i32,
}

/// Protobuf message `GridLayoutConfig`.
#[derive(Clone, Debug, PartialEq)]
pub struct GridLayoutConfig {}

/// Protobuf message `NLastLayoutConfig`.
#[derive(Clone, Debug, PartialEq)]
pub struct NLastLayoutConfig {
    pub n_count: u32,
}

/// Protobuf message `JoinOrderLayoutConfig`.
#[derive(Clone, Debug, PartialEq)]
pub struct JoinOrderLayoutConfig {}

/// Protobuf message `PinLayoutConfig`.
#[derive(Clone, Debug, PartialEq)]
pub struct PinLayoutConfig {}

/// Protobuf message `SlotsConfig`.
#[derive(Clone, Debug, PartialEq)]
pub struct SlotsConfig {
    pub key: u32,
    pub prev_slots: Vec<SlotsConfigSlot>,
    pub slots: Vec<SlotsConfigSlot>,
    pub next_slots: Vec<SlotsConfigSlot>,
    pub offset: Option<u32>,
    pub view: Option<SlotsConfigView>,
}

/// Protobuf message `SlotsConfigSlot`.
#[derive(Clone, Debug, PartialEq)]
pub struct SlotsConfigSlot {
    pub kind: Option<SlotsConfigSlotKind>,
    pub vad: bool,
    pub pinned: bool,
    pub label: String,
}

/// Protobuf message `SlotParticipant`.
#[derive(Clone, Debug, PartialEq)]
pub struct SlotParticipant {
    pub participant_id: String,
}

/// Protobuf message `SlotParticipantVideoByMid`.
#[derive(Clone, Debug, PartialEq)]
pub struct SlotParticipantVideoByMid {
    pub participant_id: String,
    pub mid: String,
    pub limitation_reason: i32,
}

/// Protobuf message `VadActivity`.
#[derive(Clone, Debug, PartialEq)]
pub struct VadActivity {
    pub active: bool,
}

/// Protobuf message `ClientSideVadActivity`.
#[derive(Clone, Debug, PartialEq)]
pub struct ClientSideVadActivity {
    pub transceiver_mid: String,
    pub active: bool,
}

/// Protobuf message `ParticipantQualityReport`.
#[derive(Clone, Debug, PartialEq)]
pub struct ParticipantQualityReport {
    pub participant_id: String,
    pub network_score: i32,
}

/// Protobuf message `UpsertParticipantsQualityReport`.
#[derive(Clone, Debug, PartialEq)]
pub struct UpsertParticipantsQualityReport {
    pub participants_quality_report: Vec<ParticipantQualityReport>,
}

/// Protobuf message `SelfQualityReport`.
#[derive(Clone, Debug, PartialEq)]
pub struct SelfQualityReport {
    pub network_score: i32,
}

/// Protobuf message `GoloomNotification`.
#[derive(Clone, Debug, PartialEq)]
pub struct GoloomNotification {
    pub notification_id: String,
    pub payload: String,
}

/// Protobuf message `SetActiveCodecs`.
#[derive(Clone, Debug, PartialEq)]
pub struct SetActiveCodecs {
    pub video_codec: i32,
    pub audio_codec: i32,
}

/// Stand-in for `google.protobuf.Empty` (the ping payload).
#[derive(Clone, Debug, PartialEq)]
pub struct ProtoEmpty {}

/// Top-level `signaling.Message`; `uid` is a fresh UUIDv4 per message.
#[derive(Clone, Debug, PartialEq)]
pub struct GoloomMessage {
    pub uid: String,
    pub kind: Option<MessageKind>,
}

// ── status-code policy ──────────────────────────────────────────────

/// Codes after which the protocol expects the client to reconnect:
/// `ACK_TIMEOUT_ERROR`, `TIMEOUT`, the `[4100, 4200)` range and the
/// WebSocket range `[1002, 2000)`.
pub open spec fn reconnect_expected(code: int) -> bool {
    ||| code == StatusCode::AckTimeoutError.value()
    ||| code == StatusCode::Timeout.value()
    ||| 4100 <= code < 4200
    ||| 1002 <= code < 2000
}

/// Codes after which retrying the same room is pointless.
pub open spec fn terminal_code(code: int) -> bool {
    ||| code == StatusCode::PermissionDenied.value()
    ||| code == StatusCode::KickedOut.value()
    ||| code == StatusCode::RoomHasBeenClosed.value()
    ||| code == StatusCode::RoomHasBeenClosedByTimeout.value()
    ||| code == StatusCode::RoomHasBeenUnexpectedlyClosed.value()
    ||| code == StatusCode::FoundActiveSession.value()
}

impl StatusCode {
    /// `true` when the protocol expects the client to reconnect.
    pub fn expects_reconnect(code: i32) -> (b: bool)
        ensures
            b == reconnect_expected(code as int),
    {
        code == StatusCode::AckTimeoutError.to_i32() || code == StatusCode::Timeout.to_i32() || (
        4100 <= code && code < 4200) || (1002 <= code && code < 2000)
    }

    /// `true` when retrying the same room is pointless.
    pub fn is_terminal(code: i32) -> (b: bool)
        ensures
            b == terminal_code(code as int),
    {
        code == StatusCode::PermissionDenied.to_i32() || code == StatusCode::KickedOut.to_i32()
            || code == StatusCode::RoomHasBeenClosed.to_i32() || code
            == StatusCode::RoomHasBeenClosedByTimeout.to_i32() || code
            == StatusCode::RoomHasBeenUnexpectedlyClosed.to_i32() || code
            == StatusCode::FoundActiveSession.to_i32()
    }
}

// ── participant attributes ──────────────────────────────────────────

/// Value of `key` in a protobuf map held as pairs; a later entry overrides
/// an earlier one, as when the map is decoded from the wire.
pub open spec fn attr_value(attrs: Seq<(String, String)>, key: Seq<char>) -> Option<String>
    decreases attrs.len(),
{
    if attrs.len() == 0 {
        None
    } else if attrs.last().0@ == key {
        Some(attrs.last().1)
    } else {
        attr_value(attrs.drop_last(), key)
    }
}

/// Looks `key` up in a protobuf map held as pairs.
pub fn find_attr<'a>(attrs: &'a Vec<(String, String)>, key: &str) -> (r: Option<&'a String>)
    ensures
        match r {
            Some(v) => attr_value(attrs@, key@) == Some(*v),
            None => attr_value(attrs@, key@) is None,
        },
{
    let mut i = attrs.len();
    assert(attrs@.take(i as int) =~= attrs@);
    while i > 0
        invariant
            i <= attrs.len(),
            attr_value(attrs@, key@) == attr_value(attrs@.take(i as int), key@),
        decreases i,
    {
        let ghost pre = attrs@.take(i as int);
        assert(pre.drop_last() =~= attrs@.take(i - 1));
        if crate::text::str_is(attrs[i - 1].0.as_str(), key) {
            return Some(&attrs[i - 1].1);
        }
        i = i - 1;
    }
    None
}

impl ParticipantDescription {
    /// Display name, carried in the `name` attribute.
    pub fn display_name(&self) -> (r: Option<&str>)
        ensures
            match r {
                Some(n) => attr_value(self.participant_attributes@, seq!['n', 'a', 'm', 'e'])
                    matches Some(v) && v@ == n@,
                None => attr_value(self.participant_attributes@, seq!['n', 'a', 'm', 'e']) is None,
            },
    {
        proof {
            reveal_strlit("name");
            assert("name"@ =~= seq!['n', 'a', 'm', 'e']);
        }
        match find_attr(&self.participant_attributes, "name") {
            Some(v) => Some(v.as_str()),
            None => None,
        }
    }

    /// Connected participants have no `disconnected_at` timestamp.
    pub fn is_connected(&self) -> (b: bool)
        ensures
            b == self.disconnected_at.is_none(),
    {
        self.disconnected_at.is_none()
    }
}

/// Participants-panel entry for a roster description: id, `name` and
/// `avatar` attributes, and the three send flags.
pub open spec fn participant_entry_of(desc: ParticipantDescription, p: TelemostParticipant) -> bool {
    &&& p.id@ == desc.id@
    &&& match p.name {
        Some(n) => attr_value(desc.participant_attributes@, seq!['n', 'a', 'm', 'e']) matches Some(v) && v@ == n@,
        None => attr_value(desc.participant_attributes@, seq!['n', 'a', 'm', 'e']) is None,
    }
    &&& match p.avatar_id {
        Some(a) => attr_value(desc.participant_attributes@, seq!['a', 'v', 'a', 't', 'a', 'r']) matches Some(v) && v@ == a@,
        None => attr_value(desc.participant_attributes@, seq!['a', 'v', 'a', 't', 'a', 'r']) is None,
    }
    &&& p.role == ParticipantRole::Participant
    &&& p.audio_enabled == Some(desc.send_audio)
    &&& p.video_enabled == Some(desc.send_video)
    &&& p.screen_share == Some(desc.send_sharing)
    &&& p.joined_at is None
}

fn clone_opt_str(s: Option<&str>) -> (r: Option<String>)
    ensures
        match (s, r) {
            (Some(a), Some(b)) => a@ == b@,
            (None, None) => true,
            _ => false,
        },
{
    match s {
        Some(a) => Some(a.to_owned()),
        None => None,
    }
}

/// Bridges a roster description to the participants panel.
pub fn to_telemost_participant(desc: &ParticipantDescription) -> (p: TelemostParticipant)
    ensures
        participant_entry_of(*desc, p),
{
    proof {
        reveal_strlit("avatar");
        assert("avatar"@ =~= seq!['a', 'v', 'a', 't', 'a', 'r']);
    }
    let avatar = match find_attr(&desc.participant_attributes, "avatar") {
        Some(a) => Some(a.clone()),
        None => None,
    };
    TelemostParticipant {
        id: desc.id.clone(),
        name: clone_opt_str(desc.display_name()),
        avatar_id: avatar,
        role: ParticipantRole::Participant,
        audio_enabled: Some(desc.send_audio),
        video_enabled: Some(desc.send_video),
        screen_share: Some(desc.send_sharing),
        joined_at: None,
    }
}


// ── builders ────────────────────────────────────────────────────────

/// The desktop opening bid: one value per capability (controller-driven
/// slots, simulcast off, RTP sharing, runtime encoder config, Android-only
/// features off). The server's `CapabilitiesAnswer` is authoritative.
pub open spec fn is_default_offer(o: CapabilitiesOffer) -> bool {
    &&& o.offer_answer_mode@ == seq![OfferAnswerMode::Separate.value()]
    &&& o.initial_subscriber_offer@ == seq![InitialSubscriberOffer::OnHello.value()]
    &&& o.slots_mode@ == seq![SlotsMode::FromController.value()]
    &&& o.simulcast_mode@ == seq![SimulcastMode::Disabled.value()]
    &&& o.self_vad_status@ == seq![SelfVadStatus::FromClient.value()]
    &&& o.data_channel_sharing@ == seq![DataChannelSharing::ToRtp.value()]
    &&& o.video_encoder_config@ == seq![VideoEncoderConfigSupport::RuntimeConfig.value()]
    &&& o.data_channel_video_codec@ == seq![DataChannelVideoCodec::UniqueCodecFromTrackDescription.value()]
    &&& o.bandwidth_limitation_reason@ == seq![BandwidthLimitationReason::Disabled.value()]
    &&& o.server_layout_transition@ == seq![ServerLayoutTransition::Enabled.value()]
    &&& o.pin_layout@ == seq![PinLayout::Enabled.value()]
    &&& o.join_order_layout@ == seq![JoinOrderLayout::Enabled.value()]
    &&& o.send_self_view_video_slot@ == seq![SendSelfViewVideoSlot::Enabled.value()]
    &&& o.sdk_default_device_management@ == seq![SdkDefaultDeviceManagement::Enabled.value()]
    &&& o.sdk_publisher_optimize_bitrate@ == seq![SdkPublisherOptimizeBitrate::Full.value()]
    &&& o.sdk_network_path_monitor@ == seq![SdkNetworkPathMonitor::Disabled.value()]
    &&& o.publisher_vp9@ == seq![PublishVp9::Disabled.value()]
    &&& o.svc_mode@ == seq![SvcMode::Disabled.value()]
    &&& o.sdk_network_lost_detection@ == seq![SdkNetworkLostDetection::Enabled.value()]
    &&& o.fixed_ice_candidates_pool_size@ == seq![FixedIceCandidatesPoolSize::Disabled.value()]
    &&& o.subscriber_offer_async_ack@ == seq![SubscriberOfferAsyncAck::Enabled.value()]
    &&& o.android_bluetooth_routing_fix@ == seq![AndroidBluetoothRoutingFix::Disabled.value()]
    &&& o.sdk_android_telecom_integration@ == seq![SdkAndroidTelecomIntegration::Disabled.value()]
    &&& o.set_active_codecs_mode@ == seq![SetActiveCodecsMode::AudioAndVideo.value()]
    &&& o.subscriber_dtls_passive_mode@ == seq![SubscriberDtlsPassiveMode::Enabled.value()]
    &&& o.publisher_opus_low_bitrate@ == seq![PublisherOpusLowBitrate::Enabled.value()]
    &&& o.publisher_opus_dred@ == seq![PublisherOpusDred::Disabled.value()]
    &&& o.sdk_android_destroy_session_on_task_removed@ == seq![SdkAndroidDestroySessionOnTaskRemoved::Disabled.value()]
}

fn single(v: i32) -> (r: Vec<i32>)
    ensures
        r@ == seq![v],
{
    let mut r = Vec::new();
    r.push(v);
    assert(r@ =~= seq![v]);
    r
}

/// Desktop defaults for `CapabilitiesOffer`.
pub fn default_capabilities_offer() -> (o: CapabilitiesOffer)
    ensures
        is_default_offer(o),
{
    CapabilitiesOffer {
        offer_answer_mode: single(OfferAnswerMode::Separate.to_i32()),
        initial_subscriber_offer: single(InitialSubscriberOffer::OnHello.to_i32()),
        slots_mode: single(SlotsMode::FromController.to_i32()),
        simulcast_mode: single(SimulcastMode::Disabled.to_i32()),
        self_vad_status: single(SelfVadStatus::FromClient.to_i32()),
        data_channel_sharing: single(DataChannelSharing::ToRtp.to_i32()),
        video_encoder_config: single(VideoEncoderConfigSupport::RuntimeConfig.to_i32()),
        data_channel_video_codec: single(DataChannelVideoCodec::UniqueCodecFromTrackDescription.to_i32()),
        bandwidth_limitation_reason: single(BandwidthLimitationReason::Disabled.to_i32()),
        server_layout_transition: single(ServerLayoutTransition::Enabled.to_i32()),
        pin_layout: single(PinLayout::Enabled.to_i32()),
        join_order_layout: single(JoinOrderLayout::Enabled.to_i32()),
        send_self_view_video_slot: single(SendSelfViewVideoSlot::Enabled.to_i32()),
        sdk_default_device_management: single(SdkDefaultDeviceManagement::Enabled.to_i32()),
        sdk_publisher_optimize_bitrate: single(SdkPublisherOptimizeBitrate::Full.to_i32()),
        sdk_network_path_monitor: single(SdkNetworkPathMonitor::Disabled.to_i32()),
        publisher_vp9: single(PublishVp9::Disabled.to_i32()),
        svc_mode: single(SvcMode::Disabled.to_i32()),
        sdk_network_lost_detection: single(SdkNetworkLostDetection::Enabled.to_i32()),
        fixed_ice_candidates_pool_size: single(FixedIceCandidatesPoolSize::Disabled.to_i32()),
        subscriber_offer_async_ack: single(SubscriberOfferAsyncAck::Enabled.to_i32()),
        android_bluetooth_routing_fix: single(AndroidBluetoothRoutingFix::Disabled.to_i32()),
        sdk_android_telecom_integration: single(SdkAndroidTelecomIntegration::Disabled.to_i32()),
        set_active_codecs_mode: single(SetActiveCodecsMode::AudioAndVideo.to_i32()),
        subscriber_dtls_passive_mode: single(SubscriberDtlsPassiveMode::Enabled.to_i32()),
        publisher_opus_low_bitrate: single(PublisherOpusLowBitrate::Enabled.to_i32()),
        publisher_opus_dred: single(PublisherOpusDred::Disabled.to_i32()),
        sdk_android_destroy_session_on_task_removed: single(SdkAndroidDestroySessionOnTaskRemoved::Disabled.to_i32()),
    }
}

pub open spec fn is_lower_hex(c: char) -> bool {
    ('0' <= c <= '9') || ('a' <= c <= 'f')
}

/// Hyphenated lower-case text of a version-4 UUID.
pub open spec fn is_uuid_v4_text(s: Seq<char>) -> bool {
    &&& s.len() == 36
    &&& forall|i: int|
        0 <= i < 36 ==> if i == 8 || i == 13 || i == 18 || i == 23 {
            #[trigger] s[i] == '-'
        } else {
            is_lower_hex(s[i])
        }
    &&& s[14] == '4'
}

/// Fresh random UUIDv4 for `Message.uid` (`uuid::Uuid::new_v4().to_string()`).
/// The value is random; only its textual shape is stated.
#[verifier::external_body]
pub fn new_uid() -> (s: String)
    ensures
        is_uuid_v4_text(s@),
{
    uuid::Uuid::new_v4().to_string()
}

/// `SdkInfo` of the desktop client for `version`, reporting `hw_concurrency`
/// hardware threads.
pub open spec fn is_desktop_sdk_info(i: SdkInfo, version: Seq<char>, hw_concurrency: i32) -> bool {
    &&& i.implementation@ == "linux-desktop"@
    &&& i.version@ == version
    &&& i.webrtc_version is None
    &&& i.user_agent@ == "yandex-messenger-native/"@ + version
    &&& i.hw_concurrency == hw_concurrency
}

pub fn desktop_sdk_info(version: &str, hw_concurrency: i32) -> (i: SdkInfo)
    ensures
        is_desktop_sdk_info(i, version@, hw_concurrency),
{
    let mut ua = "yandex-messenger-native/".to_owned();
    ua.append(version);
    SdkInfo {
        implementation: "linux-desktop".to_owned(),
        version: version.to_owned(),
        webrtc_version: None,
        user_agent: ua,
        hw_concurrency,
    }
}

/// The attribute map that carries an optional display name.
pub open spec fn name_attrs(attrs: Seq<(String, String)>, display_name: Option<Seq<char>>) -> bool {
    match display_name {
        Some(n) => attrs.len() == 1 && attrs[0].0@ == "name"@ && attrs[0].1@ == n,
        None => attrs.len() == 0,
    }
}

pub open spec fn opt_view(s: Option<&str>) -> Option<Seq<char>> {
    match s {
        Some(t) => Some(t@),
        None => None,
    }
}

/// The `Hello` that opens a session in `room_id` as `participant_id`.
pub open spec fn is_hello(
    h: Hello,
    room_id: Seq<char>,
    participant_id: Seq<char>,
    credentials: Option<String>,
    display_name: Option<Seq<char>>,
    send_audio: bool,
    send_video: bool,
    send_sharing: bool,
    app_version: Seq<char>,
    hw_concurrency: i32,
) -> bool {
    &&& h.service_name@ == "telemost"@
    &&& h.room_id@ == room_id
    &&& h.participant_id@ == participant_id
    &&& h.auth == match credentials {
        Some(c) => Some(HelloAuth::Credentials(c)),
        None => None,
    }
    &&& name_attrs(h.participant_attributes@, display_name)
    &&& h.send_audio == send_audio
    &&& h.send_video == send_video
    &&& h.send_sharing == send_sharing
    &&& !h.disable_subscriber
    &&& !h.disable_subscriber_audio
    &&& !h.disable_publisher
    &&& h.capabilities_offer matches Some(o) && is_default_offer(o)
    &&& h.sdk_info matches Some(i) && is_desktop_sdk_info(i, app_version, hw_concurrency)
    &&& is_uuid_v4_text(h.sdk_initialization_id@)
    &&& h.signaling_close_code is None
    &&& h.ref_participant_id is None
}

/// First message on the signaling socket after it opens.
pub fn hello_message(
    room_id: &str,
    participant_id: &str,
    credentials: Option<String>,
    display_name: Option<&str>,
    send_audio: bool,
    send_video: bool,
    send_sharing: bool,
    app_version: &str,
    hw_concurrency: i32,
) -> (m: GoloomMessage)
    ensures
        is_uuid_v4_text(m.uid@),
        m.kind matches Some(MessageKind::Hello(h)) && is_hello(
            h,
            room_id@,
            participant_id@,
            credentials,
            opt_view(display_name),
            send_audio,
            send_video,
            send_sharing,
            app_version@,
            hw_concurrency,
        ),
{
    let mut attrs: Vec<(String, String)> = Vec::new();
    if let Some(name) = display_name {
        attrs.push(("name".to_owned(), name.to_owned()));
    }
    let auth = match credentials {
        Some(c) => Some(HelloAuth::Credentials(c)),
        None => None,
    };
    GoloomMessage {
        uid: new_uid(),
        kind: Some(
            MessageKind::Hello(
                Hello {
                    service_name: "telemost".to_owned(),
                    room_id: room_id.to_owned(),
                    participant_id: participant_id.to_owned(),
                    auth,
                    participant_attributes: attrs,
                    send_audio,
                    send_video,
                    send_sharing,
                    disable_subscriber: false,
                    disable_subscriber_audio: false,
                    disable_publisher: false,
                    capabilities_offer: Some(default_capabilities_offer()),
                    sdk_info: Some(desktop_sdk_info(app_version, hw_concurrency)),
                    sdk_initialization_id: new_uid(),
                    signaling_close_code: None,
                    ref_participant_id: None,
                },
            ),
        ),
    }
}

/// Reconnect form of a message: a `Hello` gets the previous close code and a
/// fresh initialization id; every message gets a fresh uid.
pub open spec fn is_reconnect_of(r: GoloomMessage, msg: GoloomMessage, close_code: i32) -> bool {
    &&& is_uuid_v4_text(r.uid@)
    &&& match msg.kind {
        Some(MessageKind::Hello(h)) => r.kind matches Some(MessageKind::Hello(h2)) && h2 == Hello {
            signaling_close_code: Some(close_code),
            sdk_initialization_id: h2.sdk_initialization_id,
            ..h
        } && is_uuid_v4_text(h2.sdk_initialization_id@),
        _ => r.kind == msg.kind,
    }
}

/// Reconnect hello carrying the previous WS close code.
pub fn reconnect_hello(msg: GoloomMessage, close_code: i32) -> (r: GoloomMessage)
    ensures
        is_reconnect_of(r, msg, close_code),
{
    let kind = match msg.kind {
        Some(MessageKind::Hello(h)) => Some(
            MessageKind::Hello(
                Hello { signaling_close_code: Some(close_code), sdk_initialization_id: new_uid(), ..h },
            ),
        ),
        other => other,
    };
    GoloomMessage { uid: new_uid(), kind }
}

/// `m` acknowledges message `uid` with status OK and no description.
pub open spec fn is_ok_ack(m: GoloomMessage, uid: Seq<char>) -> bool {
    &&& m.uid@ == uid
    &&& match m.kind {
        Some(MessageKind::Ack(a)) => match a.status {
            Some(st) => st.code == StatusCode::Success.value() && st.description is None,
            None => false,
        },
        _ => false,
    }
}

/// Positive acknowledgement of message `uid`.
pub fn ack_ok(uid: &str) -> (m: GoloomMessage)
    ensures
        is_ok_ack(m, uid@),
{
    GoloomMessage {
        uid: uid.to_owned(),
        kind: Some(
            MessageKind::Ack(
                Ack { status: Some(Status { code: StatusCode::Success.to_i32(), description: None }) },
            ),
        ),
    }
}

/// Heartbeat ping, with the given uid or a fresh one.
pub fn ping(uid: Option<String>) -> (m: GoloomMessage)
    ensures
        m.kind == Some(MessageKind::Ping(ProtoEmpty {  })),
        match uid {
            Some(u) => m.uid == u,
            None => is_uuid_v4_text(m.uid@),
        },
{
    let u = match uid {
        Some(u) => u,
        None => new_uid(),
    };
    GoloomMessage { uid: u, kind: Some(MessageKind::Ping(ProtoEmpty {  })) }
}

} // verus!

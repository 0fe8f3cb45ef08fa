//! The OSC sender, without its socket and its arithmetic: which messages
//! are sent for a combined gaze, to which addresses, and what each argument
//! is made from.
//!
//! Two schemas are sent side by side. The native one of VRChat takes the
//! angles in degrees and how far the eyes are closed. The other, VRCFT v2,
//! takes the sines of the angles, the vertical ones negated, and the
//! eyelids as they are.

use vstd::prelude::*;

verus! {

/// Where messages go when no endpoint is configured.
pub const DEFAULT_OSC_ENDPOINT: &'static str = "localhost:9000";

/// The eyelid value of a neutrally open eye, in hundredths.
pub const EYELID_NEUTRAL_HUNDREDTHS: u32 = 75;

/// What an argument of a message is made from. All arguments are 32-bit
/// floats on the wire.
#[derive(Debug, Clone, Copy, PartialEq, Eq, Structural)]
pub enum OscArgument {
    /// The shared pitch, in degrees.
    Pitch,
    /// The yaw of the left eye, in degrees.
    LeftYaw,
    /// The yaw of the right eye, in degrees.
    RightYaw,
    /// How far the eyes are closed: one minus the sum of the two eyelids
    /// over twice the neutral eyelid, kept between 0 and 1.
    EyesClosedAmount,
    /// The sine of the shared pitch, negated.
    NegatedSinPitch,
    /// The sine of the yaw of the left eye.
    SinLeftYaw,
    /// The sine of the yaw of the right eye.
    SinRightYaw,
    /// The eyelid of the left eye.
    LeftEyelid,
    /// The eyelid of the right eye.
    RightEyelid,
}

/// A message: its address and what its arguments are made from.
pub struct OscMessagePlan {
    pub address: &'static str,
    pub arguments: Vec<OscArgument>,
}

/// A message as plain values.
pub struct OscMessageView {
    pub address: Seq<char>,
    pub arguments: Seq<OscArgument>,
}

impl View for OscMessagePlan {
    type V = OscMessageView;

    open spec fn view(&self) -> OscMessageView {
        OscMessageView { address: self.address@, arguments: self.arguments@ }
    }
}

/// The messages of the native schema of VRChat, each sent on its own.
pub open spec fn vrchat_native_schema() -> Seq<OscMessageView> {
    seq![
        OscMessageView {
            address: "/tracking/eye/LeftRightPitchYaw"@,
            arguments: seq![
                OscArgument::Pitch,
                OscArgument::LeftYaw,
                OscArgument::Pitch,
                OscArgument::RightYaw,
            ],
        },
        OscMessageView {
            address: "/tracking/eye/EyesClosedAmount"@,
            arguments: seq![OscArgument::EyesClosedAmount],
        },
    ]
}

/// The messages of the VRCFT v2 schema, sent together as one bundle that is
/// stamped with the time of sending.
pub open spec fn vrcft_v2_schema() -> Seq<OscMessageView> {
    seq![
        OscMessageView {
            address: "/avatar/parameters/FT/v2/EyeY"@,
            arguments: seq![OscArgument::NegatedSinPitch],
        },
        OscMessageView {
            address: "/avatar/parameters/FT/v2/EyeLeftX"@,
            arguments: seq![OscArgument::SinLeftYaw],
        },
        OscMessageView {
            address: "/avatar/parameters/FT/v2/EyeLeftY"@,
            arguments: seq![OscArgument::NegatedSinPitch],
        },
        OscMessageView {
            address: "/avatar/parameters/FT/v2/EyeLidLeft"@,
            arguments: seq![OscArgument::LeftEyelid],
        },
        OscMessageView {
            address: "/avatar/parameters/FT/v2/EyeRightX"@,
            arguments: seq![OscArgument::SinRightYaw],
        },
        OscMessageView {
            address: "/avatar/parameters/FT/v2/EyeRightY"@,
            arguments: seq![OscArgument::NegatedSinPitch],
        },
        OscMessageView {
            address: "/avatar/parameters/FT/v2/EyeLidRight"@,
            arguments: seq![OscArgument::RightEyelid],
        },
    ]
}

/// The views of a list of messages.
pub open spec fn message_views(messages: Seq<OscMessagePlan>) -> Seq<OscMessageView> {
    Seq::new(messages.len(), |i: int| messages[i]@)
}

fn single(address: &'static str, argument: OscArgument) -> (message: OscMessagePlan)
    ensures
        message@ == (OscMessageView { address: address@, arguments: seq![argument] }),
{
    let mut arguments: Vec<OscArgument> = Vec::new();
    arguments.push(argument);
    assert(arguments@ =~= seq![argument]);
    OscMessagePlan { address, arguments }
}

/// The messages of the native schema of VRChat.
pub fn vrchat_native_messages() -> (messages: Vec<OscMessagePlan>)
    ensures
        message_views(messages@) == vrchat_native_schema(),
{
    let mut angles: Vec<OscArgument> = Vec::new();
    angles.push(OscArgument::Pitch);
    angles.push(OscArgument::LeftYaw);
    angles.push(OscArgument::Pitch);
    angles.push(OscArgument::RightYaw);
    assert(angles@ =~= seq![
        OscArgument::Pitch,
        OscArgument::LeftYaw,
        OscArgument::Pitch,
        OscArgument::RightYaw,
    ]);
    let mut messages: Vec<OscMessagePlan> = Vec::new();
    messages.push(OscMessagePlan { address: "/tracking/eye/LeftRightPitchYaw", arguments: angles });
    messages.push(single("/tracking/eye/EyesClosedAmount", OscArgument::EyesClosedAmount));
    assert(message_views(messages@) =~= vrchat_native_schema());
    messages
}

/// The messages of the VRCFT v2 bundle.
pub fn vrcft_v2_messages() -> (messages: Vec<OscMessagePlan>)
    ensures
        message_views(messages@) == vrcft_v2_schema(),
{
    let mut messages: Vec<OscMessagePlan> = Vec::new();
    messages.push(single("/avatar/parameters/FT/v2/EyeY", OscArgument::NegatedSinPitch));
    messages.push(single("/avatar/parameters/FT/v2/EyeLeftX", OscArgument::SinLeftYaw));
    messages.push(single("/avatar/parameters/FT/v2/EyeLeftY", OscArgument::NegatedSinPitch));
    messages.push(single("/avatar/parameters/FT/v2/EyeLidLeft", OscArgument::LeftEyelid));
    messages.push(single("/avatar/parameters/FT/v2/EyeRightX", OscArgument::SinRightYaw));
    messages.push(single("/avatar/parameters/FT/v2/EyeRightY", OscArgument::NegatedSinPitch));
    messages.push(single("/avatar/parameters/FT/v2/EyeLidRight", OscArgument::RightEyelid));
    assert(message_views(messages@) =~= vrcft_v2_schema());
    messages
}

} // verus!

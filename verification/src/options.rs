//! Option types for profile and contact operations.
//!
//! The remote service identifies each choice by a fixed numeric code; the
//! `wire_code` methods give the value that goes into a request body.

use vstd::prelude::*;

verus! {

/// The user's gender, as the profile-update route encodes it.
#[derive(Debug, Clone, Copy, PartialEq, Eq, Structural)]
pub enum Sex {
    Male,
    Female,
}

pub open spec fn sex_code(s: Sex) -> u32 {
    match s {
        Sex::Male => 1,
        Sex::Female => 2,
    }
}

impl Sex {
    pub fn wire_code(&self) -> (r: u32)
        ensures
            r == sex_code(*self),
    {
        match self {
            Sex::Male => 1,
            Sex::Female => 2,
        }
    }
}

/// Whether a contact operation adds or removes.
#[derive(Debug, Clone, Copy, PartialEq, Eq, Structural)]
pub enum ContactOperationType {
    Add,
    Remove,
}

pub open spec fn contact_operation_code(op: ContactOperationType) -> u32 {
    match op {
        ContactOperationType::Add => 1,
        ContactOperationType::Remove => 2,
    }
}

impl ContactOperationType {
    pub fn wire_code(&self) -> (r: u32)
        ensures
            r == contact_operation_code(*self),
    {
        match self {
            ContactOperationType::Add => 1,
            ContactOperationType::Remove => 2,
        }
    }
}

/// The privacy switches the settings route can toggle.
#[derive(Debug, Clone, Copy, PartialEq, Eq, Structural)]
pub enum PrivacyOperationType {
    /// Require verification to be added as a friend.
    RequiredFriendRequest,
    /// Recommend friends from my contacts.
    FindMobileContacts,
    /// Allow finding me via phone number.
    FindViaPhoneNumber,
    /// Allow finding me via WeChat ID.
    FindViaWeChatId,
    /// Allow finding me via group chat.
    FindViaGroupChat,
    /// Allow adding me via QR code.
    AddViaQrCode,
    /// Allow adding me via business card.
    AddViaBusinessCard,
}

pub open spec fn privacy_operation_code(op: PrivacyOperationType) -> u32 {
    match op {
        PrivacyOperationType::RequiredFriendRequest => 4,
        PrivacyOperationType::FindMobileContacts => 7,
        PrivacyOperationType::FindViaPhoneNumber => 8,
        PrivacyOperationType::FindViaWeChatId => 25,
        PrivacyOperationType::FindViaGroupChat => 38,
        PrivacyOperationType::AddViaQrCode => 39,
        PrivacyOperationType::AddViaBusinessCard => 40,
    }
}

impl PrivacyOperationType {
    pub fn wire_code(&self) -> (r: u32)
        ensures
            r == privacy_operation_code(*self),
    {
        match self {
            PrivacyOperationType::RequiredFriendRequest => 4,
            PrivacyOperationType::FindMobileContacts => 7,
            PrivacyOperationType::FindViaPhoneNumber => 8,
            PrivacyOperationType::FindViaWeChatId => 25,
            PrivacyOperationType::FindViaGroupChat => 38,
            PrivacyOperationType::AddViaQrCode => 39,
            PrivacyOperationType::AddViaBusinessCard => 40,
        }
    }
}

} // verus!

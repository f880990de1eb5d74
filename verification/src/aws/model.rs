//! Access keys as the identity service describes them.

use vstd::prelude::*;

verus! {

/// The view of an optional string.
pub open spec fn text_of(value: Option<String>) -> Option<Seq<char>> {
    match value {
        Some(text) => Some(text@),
        None => None,
    }
}

/// A copy of an optional string.
pub fn copy_text(value: &Option<String>) -> (res: Option<String>)
    ensures
        text_of(res) == text_of(*value),
{
    match value {
        Some(text) => Some(text.clone()),
        None => None,
    }
}

/// An access key with its secret, as the service hands it out once, on
/// creation, and as the credential store keeps it.
#[derive(Debug)]
pub struct AccessKey {
    pub access_key_id: String,
    pub create_date: Option<String>,
    pub secret_access_key: String,
    pub status: String,
    pub user_name: String,
}

/// An `AccessKey`, its strings as sequences of characters.
pub struct AccessKeyView {
    pub access_key_id: Seq<char>,
    pub create_date: Option<Seq<char>>,
    pub secret_access_key: Seq<char>,
    pub status: Seq<char>,
    pub user_name: Seq<char>,
}

impl View for AccessKey {
    type V = AccessKeyView;

    open spec fn view(&self) -> AccessKeyView {
        AccessKeyView {
            access_key_id: self.access_key_id@,
            create_date: text_of(self.create_date),
            secret_access_key: self.secret_access_key@,
            status: self.status@,
            user_name: self.user_name@,
        }
    }
}

impl Clone for AccessKey {
    fn clone(&self) -> (res: Self)
        ensures
            res@ == self@,
    {
        AccessKey {
            access_key_id: self.access_key_id.clone(),
            create_date: copy_text(&self.create_date),
            secret_access_key: self.secret_access_key.clone(),
            status: self.status.clone(),
            user_name: self.user_name.clone(),
        }
    }
}

/// What a listing tells of one access key. The service may leave any field
/// out.
#[derive(Debug)]
pub struct AccessKeyMetadata {
    pub access_key_id: Option<String>,
    pub create_date: Option<String>,
    pub status: Option<String>,
    pub user_name: Option<String>,
}

/// An `AccessKeyMetadata`, its strings as sequences of characters.
pub struct AccessKeyMetadataView {
    pub access_key_id: Option<Seq<char>>,
    pub create_date: Option<Seq<char>>,
    pub status: Option<Seq<char>>,
    pub user_name: Option<Seq<char>>,
}

impl View for AccessKeyMetadata {
    type V = AccessKeyMetadataView;

    open spec fn view(&self) -> AccessKeyMetadataView {
        AccessKeyMetadataView {
            access_key_id: text_of(self.access_key_id),
            create_date: text_of(self.create_date),
            status: text_of(self.status),
            user_name: text_of(self.user_name),
        }
    }
}

/// The views of a listing's entries, in the listing's order.
pub open spec fn listing_of(keys: Seq<AccessKeyMetadata>) -> Seq<AccessKeyMetadataView> {
    keys.map_values(|key: AccessKeyMetadata| key@)
}

/// One answer of the service to a request for an identity's keys: some of
/// the keys, and whether more follow.
#[derive(Debug)]
pub struct AccessKeyListing {
    /// The keys of this answer.
    pub access_key_metadata: Vec<AccessKeyMetadata>,
    /// Whether the identity has keys that this answer leaves out.
    pub is_truncated: Option<bool>,
    /// Where the next answer is to begin, if this one leaves keys out.
    pub marker: Option<String>,
}

/// An `AccessKeyListing`, with the views of what it carries.
pub struct AccessKeyListingView {
    pub access_key_metadata: Seq<AccessKeyMetadataView>,
    pub is_truncated: Option<bool>,
    pub marker: Option<Seq<char>>,
}

impl View for AccessKeyListing {
    type V = AccessKeyListingView;

    open spec fn view(&self) -> AccessKeyListingView {
        AccessKeyListingView {
            access_key_metadata: listing_of(self.access_key_metadata@),
            is_truncated: self.is_truncated,
            marker: text_of(self.marker),
        }
    }
}

} // verus!

//! Files that belong to status pages, such as a logo.

use vstd::prelude::*;
use vstd::string::*;

use crate::codec::{base64_encode, header_text, uuid_text, Id};
use crate::error::{bad_request, not_found, payload_too_large, AppError};
use crate::text::{chars_of, copy_range, decimal_text, find_char, owned, same_text, string_of};
use crate::text::trim_chars;
use crate::time::Moment;

verus! {

/// What a file of a page is for.
#[derive(Clone, Copy, Debug, PartialEq, Eq, Structural)]
pub enum AssetSlot {
    Logo,
}

impl AssetSlot {
    /// The name of a slot.
    pub open spec fn name(self) -> Seq<char> {
        match self {
            AssetSlot::Logo => "logo"@,
        }
    }

    /// The name of this slot.
    pub fn as_str(self) -> (r: &'static str)
        ensures
            r@ == self.name(),
    {
        match self {
            AssetSlot::Logo => "logo",
        }
    }
}

/// `e` is the refusal of a slot that there is none of.
pub open spec fn is_slot_refusal(e: AppError, slot: Seq<char>) -> bool {
    crate::error::is_bad_request(
        e,
        "UNKNOWN_ASSET_SLOT"@,
        "unknown asset slot `"@ + slot + "`; supported slots: logo"@,
    )
}

/// The slot of this name.
pub fn parse_slot(slot: &str) -> (r: Result<AssetSlot, AppError>)
    ensures
        match r {
            Ok(s) => slot@ == s.name(),
            Err(e) => slot@ != "logo"@ && is_slot_refusal(e, slot@),
        },
{
    if same_text(slot, "logo") {
        Ok(AssetSlot::Logo)
    } else {
        let mut message = owned("unknown asset slot `");
        message.append(slot);
        message.append("`; supported slots: logo");
        Err(bad_request("UNKNOWN_ASSET_SLOT", message))
    }
}

/// The media type of a header's text, without its parameters.
pub open spec fn media_type(text: Seq<char>) -> Seq<char> {
    crate::text::trimmed(crate::text::before(text, ';'))
}

/// `e` is the refusal of a content type for this reason.
pub open spec fn is_type_refusal(e: AppError, message: Seq<char>) -> bool {
    crate::error::is_bad_request(e, "INVALID_CONTENT_TYPE"@, message)
}

/// The media type that the bytes of a `Content-Type` header name. A header that is
/// missing, not readable or names nothing is refused.
pub fn content_type_from_headers(header: Option<&[u8]>) -> (r: Result<String, AppError>)
    ensures
        match r {
            Ok(mime) => header matches Some(h) && crate::codec::all_visible(h@) && mime@.len() > 0 && mime@
                == media_type(crate::codec::ascii_text(h@)),
            Err(e) => match header {
                None => crate::error::is_bad_request(
                    e,
                    "MISSING_CONTENT_TYPE"@,
                    "asset upload requires a Content-Type header"@,
                ),
                Some(h) => {
                    ||| !crate::codec::all_visible(h@) && is_type_refusal(
                        e,
                        "Content-Type header is not valid UTF-8"@,
                    )
                    ||| crate::codec::all_visible(h@) && media_type(crate::codec::ascii_text(h@)).len() == 0
                        && is_type_refusal(e, "Content-Type header is empty"@)
                },
            },
        },
{
    let bytes = match header {
        Some(h) => h,
        None => return Err(
            bad_request(
                "MISSING_CONTENT_TYPE",
                owned("asset upload requires a Content-Type header"),
            ),
        ),
    };
    let text = match header_text(bytes) {
        Some(t) => t,
        None => return Err(
            bad_request("INVALID_CONTENT_TYPE", owned("Content-Type header is not valid UTF-8")),
        ),
    };
    let chars = chars_of(text.as_str());
    let end = find_char(&chars, ';');
    let head = copy_range(&chars, 0, end);
    let mime = trim_chars(&head);
    if mime.len() == 0 {
        return Err(bad_request("INVALID_CONTENT_TYPE", owned("Content-Type header is empty")));
    }
    Ok(string_of(&mime))
}

/// What a slot takes.
#[derive(Clone, Debug)]
pub struct AssetPolicy {
    pub allowed_content_types: Vec<String>,
    pub max_byte_size: u64,
}

/// Whether a slot takes files of this type.
pub open spec fn takes_type(policy: AssetPolicy, content_type: Seq<char>) -> bool {
    exists|i: int|
        0 <= i < policy.allowed_content_types@.len() && (
        #[trigger] policy.allowed_content_types@[i])@ == content_type
}

/// The first `n` of `parts`, with a comma and a space between them.
pub open spec fn listed(parts: Seq<String>, n: nat) -> Seq<char>
    decreases n,
{
    if n == 0 || n > parts.len() {
        Seq::empty()
    } else if n == 1 {
        parts[0]@
    } else {
        listed(parts, (n - 1) as nat) + ", "@ + parts[n - 1]@
    }
}

/// All of `parts`, with a comma and a space between them.
fn list_parts(parts: &Vec<String>) -> (r: String)
    ensures
        r@ == listed(parts@, parts@.len()),
{
    if parts.len() == 0 {
        return String::new();
    }
    let mut out = parts[0].clone();
    let mut i: usize = 1;
    while i < parts.len()
        invariant
            1 <= i <= parts.len(),
            out@ == listed(parts@, i as nat),
        decreases parts.len() - i,
    {
        out.append(", ");
        out.append(parts[i].as_str());
        i += 1;
    }
    out
}

/// Whether a file of this type and size may go into a slot.
pub fn check_upload(slot: AssetSlot, policy: &AssetPolicy, content_type: &str, size: u64) -> (r:
    Result<(), AppError>)
    ensures
        match r {
            Ok(_) => takes_type(*policy, content_type@) && size <= policy.max_byte_size,
            Err(e) => {
                ||| !takes_type(*policy, content_type@) && crate::error::is_bad_request(
                    e,
                    "UNSUPPORTED_ASSET_MIME"@,
                    "slot `"@ + slot.name() + "` does not accept `"@ + content_type@
                        + "`; allowed: "@ + listed(
                        policy.allowed_content_types@,
                        policy.allowed_content_types@.len(),
                    ),
                )
                ||| takes_type(*policy, content_type@) && size > policy.max_byte_size
                    && crate::error::is_too_large(
                    e,
                    "ASSET_TOO_LARGE"@,
                    "slot `"@ + slot.name() + "` accepts at most "@ + crate::text::decimal(
                        policy.max_byte_size as nat,
                    ) + " bytes; got "@ + crate::text::decimal(size as nat),
                )
            },
        },
{
    let mut i: usize = 0;
    while i < policy.allowed_content_types.len() && !same_text(
        policy.allowed_content_types[i].as_str(),
        content_type,
    )
        invariant
            i <= policy.allowed_content_types.len(),
            forall|j: int|
                0 <= j < i ==> (#[trigger] policy.allowed_content_types@[j])@ != content_type@,
        decreases policy.allowed_content_types.len() - i,
    {
        i += 1;
    }
    if i == policy.allowed_content_types.len() {
        let mut message = owned("slot `");
        message.append(slot.as_str());
        message.append("` does not accept `");
        message.append(content_type);
        message.append("`; allowed: ");
        message.append(list_parts(&policy.allowed_content_types).as_str());
        return Err(bad_request("UNSUPPORTED_ASSET_MIME", message));
    }
    assert(policy.allowed_content_types@[i as int]@ == content_type@);
    if size > policy.max_byte_size {
        let mut message = owned("slot `");
        message.append(slot.as_str());
        message.append("` accepts at most ");
        message.append(decimal_text(policy.max_byte_size).as_str());
        message.append(" bytes; got ");
        message.append(decimal_text(size).as_str());
        return Err(payload_too_large("ASSET_TOO_LARGE", message));
    }
    Ok(())
}

/// A file of a page.
#[derive(Clone, Debug)]
pub struct PageAsset {
    pub slot: AssetSlot,
    pub content_type: String,
    pub hash: String,
    pub data: Vec<u8>,
    pub created_at: Moment,
    pub updated_at: Moment,
}

/// What is told of a file of a page. Its content comes along, as Base64, only right
/// after it was sent in.
#[derive(Clone, Debug)]
pub struct AssetMeta {
    pub slot: String,
    pub content_type: String,
    pub hash: String,
    pub data: Option<String>,
    pub created_at: Moment,
    pub updated_at: Moment,
}

/// `m` tells of the file `a` what is told of any, apart from its content.
pub open spec fn tells_of(m: AssetMeta, a: PageAsset) -> bool {
    &&& m.slot@ == a.slot.name()
    &&& m.content_type == a.content_type
    &&& m.hash == a.hash
    &&& m.created_at == a.created_at
    &&& m.updated_at == a.updated_at
}

/// What is told of a file that was just sent in.
pub fn uploaded_meta(asset: PageAsset) -> (r: AssetMeta)
    requires
        asset.data@.len() < usize::MAX / 4,
    ensures
        tells_of(r, asset),
        r.data matches Some(d) && d@ == crate::codec::base64_text(asset.data@),
{
    AssetMeta {
        slot: owned(asset.slot.as_str()),
        content_type: asset.content_type,
        hash: asset.hash,
        data: Some(base64_encode(&asset.data)),
        created_at: asset.created_at,
        updated_at: asset.updated_at,
    }
}

/// What is told of the files of a page, in order, without their content.
pub fn list_assets(assets: Vec<PageAsset>) -> (r: Vec<AssetMeta>)
    ensures
        r@.len() == assets@.len(),
        forall|i: int|
            0 <= i < r@.len() ==> tells_of(#[trigger] r@[i], assets@[i]) && r@[i].data is None,
{
    let ghost all = assets@;
    let mut rest = assets;
    let mut out: Vec<AssetMeta> = Vec::new();
    while rest.len() > 0
        invariant
            out@.len() + rest@.len() == all.len(),
            rest@ == all.skip(out@.len() as int),
            forall|i: int|
                0 <= i < out@.len() ==> tells_of(#[trigger] out@[i], all[i]) && out@[i].data
                    is None,
        decreases rest.len(),
    {
        let asset = rest.remove(0);
        assert(asset == all[out@.len() as int]);
        out.push(
            AssetMeta {
                slot: owned(asset.slot.as_str()),
                content_type: asset.content_type,
                hash: asset.hash,
                data: None,
                created_at: asset.created_at,
                updated_at: asset.updated_at,
            },
        );
        assert(rest@ =~= all.skip(out@.len() as int));
    }
    out
}

/// `e` is the error for a slot with nothing in it.
pub open spec fn is_missing_asset(e: AppError, slot: Seq<char>, page_id: Id) -> bool {
    crate::error::is_not_found(
        e,
        "ASSET_NOT_FOUND"@,
        "no asset in slot `"@ + slot + "` for page "@ + crate::codec::id_text(page_id),
    )
}

/// The file in a slot of a page, as its type and its bytes.
pub fn get_asset(stored: Option<PageAsset>, slot: &str, page_id: Id) -> (r: Result<
    (String, Vec<u8>),
    AppError,
>)
    ensures
        match r {
            Ok(file) => stored matches Some(a) && file == (a.content_type, a.data),
            Err(e) => stored is None && is_missing_asset(e, slot@, page_id),
        },
{
    match stored {
        Some(a) => Ok((a.content_type, a.data)),
        None => {
            let mut message = owned("no asset in slot `");
            message.append(slot);
            message.append("` for page ");
            message.append(uuid_text(page_id).as_str());
            Err(not_found("ASSET_NOT_FOUND", message))
        },
    }
}

/// Which slot of a page the public may ask for: none of a page that is not
/// published.
pub fn get_public_asset(page_enabled: bool, slot: &str) -> (r: Result<AssetSlot, AppError>)
    ensures
        match r {
            Ok(s) => page_enabled && slot@ == s.name(),
            Err(e) => {
                ||| !page_enabled && crate::error::is_not_found(
                    e,
                    "PAGE_DISABLED"@,
                    "status page is not published"@,
                )
                ||| page_enabled && slot@ != "logo"@ && is_slot_refusal(e, slot@)
            },
        },
{
    if !page_enabled {
        return Err(not_found("PAGE_DISABLED", owned("status page is not published")));
    }
    parse_slot(slot)
}

} // verus!

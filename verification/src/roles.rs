//! The closed catalogue of role codes, its two stored forms (text and bytes),
//! and the hierarchy by which a route's requirement is met.

use vstd::prelude::*;
use vstd::string::StringSliceAdditionalSpecFns;
use vstd::utf8::{decode_utf8, encode_utf8, valid_utf8};
use crate::text::{bytes_equal, text_equal};

verus! {

/// A named privilege level. The catalogue is closed: no other code exists.
#[derive(Debug, Clone, Copy, PartialEq, Eq, Structural)]
pub enum RoleCode {
    Admin,
    Editor,
    Viewer,
}

/// A stored value that names no role code.
#[derive(Debug, Clone, Copy, PartialEq, Eq, Structural)]
pub struct InvalidRoleCode;

/// The text under which a role code is stored and exchanged.
pub open spec fn role_code_text(code: RoleCode) -> Seq<char> {
    match code {
        RoleCode::Admin => "admin"@,
        RoleCode::Editor => "editor"@,
        RoleCode::Viewer => "viewer"@,
    }
}

/// The role code that a text names. Any text outside the catalogue is an
/// error; none is read as the lowest privilege.
pub open spec fn parse_role_code(text: Seq<char>) -> Result<RoleCode, InvalidRoleCode> {
    if text == "admin"@ {
        Ok(RoleCode::Admin)
    } else if text == "editor"@ {
        Ok(RoleCode::Editor)
    } else if text == "viewer"@ {
        Ok(RoleCode::Viewer)
    } else {
        Err(InvalidRoleCode)
    }
}

/// The role code held in a stored column value: the value must be present,
/// be UTF-8 and spell a code of the catalogue.
pub open spec fn parse_stored_role_code(bytes: Option<Seq<u8>>) -> Result<
    RoleCode,
    InvalidRoleCode,
> {
    match bytes {
        Some(b) => if valid_utf8(b) {
            parse_role_code(decode_utf8(b))
        } else {
            Err(InvalidRoleCode)
        },
        None => Err(InvalidRoleCode),
    }
}

/// Position of a code in the hierarchy: a higher rank includes the lower ones.
pub open spec fn role_rank(code: RoleCode) -> nat {
    match code {
        RoleCode::Viewer => 0,
        RoleCode::Editor => 1,
        RoleCode::Admin => 2,
    }
}

/// What a route asks of the caller: some role at or above `minimum`.
#[derive(Debug, Clone, Copy, PartialEq, Eq, Structural)]
pub struct Capability {
    pub minimum: RoleCode,
}

/// Whether holding `code` meets `capability`.
pub open spec fn permits(capability: Capability, code: RoleCode) -> bool {
    role_rank(code) >= role_rank(capability.minimum)
}

/// Whether a set of held role codes meets `capability`: at least one of them
/// does. The empty set meets none.
pub open spec fn grants(capability: Capability, held: Seq<RoleCode>) -> bool {
    exists|i: int| 0 <= i < held.len() && permits(capability, #[trigger] held[i])
}

impl InvalidRoleCode {
    /// The message shown for this error.
    pub fn message(&self) -> (text: &'static str)
        ensures
            text@ == "Invalid value to transform to Role code"@,
    {
        "Invalid value to transform to Role code"
    }
}

impl RoleCode {
    /// Reads a role code from its text.
    pub fn from_string(string: String) -> (code: Result<RoleCode, InvalidRoleCode>)
        ensures
            code == parse_role_code(string@),
    {
        let text = string.as_str();
        if text_equal(text, "admin") {
            Ok(RoleCode::Admin)
        } else if text_equal(text, "editor") {
            Ok(RoleCode::Editor)
        } else if text_equal(text, "viewer") {
            Ok(RoleCode::Viewer)
        } else {
            Err(InvalidRoleCode)
        }
    }

    /// The text of a role code.
    pub fn as_str(&self) -> (text: &'static str)
        ensures
            text@ == role_code_text(*self),
    {
        match self {
            RoleCode::Admin => "admin",
            RoleCode::Editor => "editor",
            RoleCode::Viewer => "viewer",
        }
    }

    /// Reads a role code from a stored column value; `None` is SQL `NULL`.
    pub fn from_sql(bytes: Option<&[u8]>) -> (code: Result<RoleCode, InvalidRoleCode>)
        ensures
            code == parse_stored_role_code(
                match bytes {
                    Some(b) => Some(b@),
                    None => None,
                },
            ),
    {
        match bytes {
            Some(b) => {
                proof {
                    lemma_utf8_round_trip(b@, "admin"@);
                    lemma_utf8_round_trip(b@, "editor"@);
                    lemma_utf8_round_trip(b@, "viewer"@);
                }
                if bytes_equal(b, "admin".as_bytes()) {
                    Ok(RoleCode::Admin)
                } else if bytes_equal(b, "editor".as_bytes()) {
                    Ok(RoleCode::Editor)
                } else if bytes_equal(b, "viewer".as_bytes()) {
                    Ok(RoleCode::Viewer)
                } else {
                    Err(InvalidRoleCode)
                }
            },
            None => Err(InvalidRoleCode),
        }
    }

    /// The bytes stored for a role code: its text in UTF-8.
    pub fn to_sql(&self) -> (bytes: &'static [u8])
        ensures
            bytes@ == encode_utf8(role_code_text(*self)),
    {
        self.as_str().as_bytes()
    }

    /// Whether this code meets `capability`.
    pub fn meets(&self, capability: &Capability) -> (ok: bool)
        ensures
            ok == permits(*capability, *self),
    {
        match capability.minimum {
            RoleCode::Viewer => true,
            RoleCode::Editor => match self {
                RoleCode::Viewer => false,
                _ => true,
            },
            RoleCode::Admin => match self {
                RoleCode::Admin => true,
                _ => false,
            },
        }
    }
}

impl Capability {
    /// The requirement "editor or above": met by Editor and by Admin.
    pub fn editor_or_above() -> (capability: Capability)
        ensures
            capability.minimum == RoleCode::Editor,
    {
        Capability { minimum: RoleCode::Editor }
    }
}

/// Bytes are the UTF-8 of a text exactly when they are valid UTF-8 that
/// decodes to it.
proof fn lemma_utf8_round_trip(bytes: Seq<u8>, text: Seq<char>)
    ensures
        bytes == encode_utf8(text) <==> valid_utf8(bytes) && decode_utf8(bytes) == text,
{
    vstd::utf8::encode_utf8_valid_utf8(text);
    vstd::utf8::encode_utf8_decode_utf8(text);
    if valid_utf8(bytes) {
        vstd::utf8::decode_utf8_encode_utf8(bytes);
    }
}

/// The three texts of the catalogue differ from one another.
pub proof fn lemma_role_texts_distinct()
    ensures
        "admin"@ != "editor"@,
        "admin"@ != "viewer"@,
        "editor"@ != "viewer"@,
{
    reveal_strlit("admin");
    reveal_strlit("editor");
    reveal_strlit("viewer");
    assert("admin"@.len() == 5);
    assert("editor"@.len() == 6);
    assert("editor"@[0] == 'e');
    assert("viewer"@[0] == 'v');
}

/// Writing a role code as text and reading it back gives the same code, and
/// a text that reads as a code is the text of that code.
pub proof fn lemma_role_code_text_round_trip(code: RoleCode, text: Seq<char>)
    ensures
        parse_role_code(role_code_text(code)) == Ok::<RoleCode, InvalidRoleCode>(code),
        parse_role_code(text) == Ok::<RoleCode, InvalidRoleCode>(code) ==> text == role_code_text(
            code,
        ),
{
    lemma_role_texts_distinct();
}

/// Storing a role code and reading the stored bytes back gives the same
/// code, and bytes that read as a code are the stored form of that code.
pub proof fn lemma_role_code_stored_round_trip(code: RoleCode, bytes: Seq<u8>)
    ensures
        parse_stored_role_code(Some(encode_utf8(role_code_text(code)))) == Ok::<
            RoleCode,
            InvalidRoleCode,
        >(code),
        parse_stored_role_code(Some(bytes)) == Ok::<RoleCode, InvalidRoleCode>(code) ==> bytes
            == encode_utf8(role_code_text(code)),
        parse_stored_role_code(None) == Err::<RoleCode, InvalidRoleCode>(InvalidRoleCode),
{
    lemma_role_texts_distinct();
    lemma_utf8_round_trip(encode_utf8(role_code_text(code)), role_code_text(code));
    lemma_utf8_round_trip(bytes, role_code_text(code));
}

/// Under "editor or above", Editor and Admin are permitted and Viewer is
/// not: a caller holding only Viewer roles is denied, and a caller holding
/// an Editor or an Admin role is granted access.
pub proof fn lemma_editor_or_above(held: Seq<RoleCode>)
    ensures
        permits(Capability { minimum: RoleCode::Editor }, RoleCode::Admin),
        permits(Capability { minimum: RoleCode::Editor }, RoleCode::Editor),
        !permits(Capability { minimum: RoleCode::Editor }, RoleCode::Viewer),
        (forall|i: int| 0 <= i < held.len() ==> held[i] == RoleCode::Viewer) ==> !grants(
            Capability { minimum: RoleCode::Editor },
            held,
        ),
        held.contains(RoleCode::Editor) || held.contains(RoleCode::Admin) ==> grants(
            Capability { minimum: RoleCode::Editor },
            held,
        ),
{
    let cap = Capability { minimum: RoleCode::Editor };
    if held.contains(RoleCode::Editor) {
        let i = choose|i: int| 0 <= i < held.len() && held[i] == RoleCode::Editor;
        assert(permits(cap, held[i]));
    }
    if held.contains(RoleCode::Admin) {
        let i = choose|i: int| 0 <= i < held.len() && held[i] == RoleCode::Admin;
        assert(permits(cap, held[i]));
    }
}

/// No capability is met without a role.
pub proof fn lemma_no_role_no_access(capability: Capability)
    ensures
        !grants(capability, Seq::<RoleCode>::empty()),
{
}

} // verus!

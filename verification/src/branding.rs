//! Site branding: what a tenant's library calls itself, and what it looks like.
//!
//! An empty name falls back to the tenant's display name rather than to a default: a copy of the display name
//! would go stale the day it changed.

use crate::commands::{as_maybe_text, as_text, Command, Given, Value};
use crate::text::{
    ascii_lowercase, ascii_lowered, opt_chars, quoted, quoted_chars, trim, trimmed,
};
use crate::{Error, Uuid};
use vstd::prelude::*;

verus! {

/// What this tenant's library looks like.
#[derive(Debug, Clone, PartialEq, Eq)]
pub struct Branding {
    /// Empty means fall back.
    pub site_name: String,
    pub logo_asset_id: Option<Uuid>,
    /// Lower-case `#rrggbb`. Safe to interpolate into CSS because of that.
    pub accent: String,
    pub support_email: Option<String>,
}

/// The accent a tenant gets before choosing one, and the one a portal inherits.
pub const DEFAULT_ACCENT: &'static str = "#2563eb";

impl Branding {
    /// The name to show, falling back to the tenant's display name.
    pub fn name_or(&self, tenant_display_name: &str) -> (name: String)
        ensures
            name@ == if trimmed(self.site_name@).len() == 0 {
                tenant_display_name@
            } else {
                self.site_name@
            },
    {
        if trim(self.site_name.as_str()).is_empty() {
            tenant_display_name.to_owned()
        } else {
            self.site_name.clone()
        }
    }
}

/// The branding that applies: the stored one, or a plain one where no row is stored. Branding is decoration: a
/// library that will not load because nobody set a colour would be the worse failure.
pub fn read(row: Option<Branding>) -> (branding: Branding)
    ensures
        match row {
            Some(stored) => branding == stored,
            None => {
                &&& branding.site_name@ == Seq::<char>::empty()
                &&& branding.logo_asset_id is None
                &&& branding.accent@ == "#2563eb"@
                &&& branding.support_email is None
            },
        },
{
    match row {
        Some(stored) => stored,
        None => Branding {
            site_name: String::new(),
            logo_asset_id: None,
            accent: DEFAULT_ACCENT.to_owned(),
            support_email: None,
        },
    }
}

/// A lower-case hexadecimal digit.
pub open spec fn lower_hex(c: char) -> bool {
    '0' <= c <= '9' || 'a' <= c <= 'f'
}

/// A lower-case six-digit colour. Three-digit shorthand is not accepted: two spellings of one colour would make
/// comparing settings a normalisation problem.
pub open spec fn colour_shaped(value: Seq<char>) -> bool {
    &&& value.len() == 7
    &&& value[0] == '#'
    &&& forall|i: int| 1 <= i < 7 ==> lower_hex(#[trigger] value[i])
}

/// Whether a string is a lower-case six-digit hex colour.
pub fn is_hex_colour(value: &str) -> (yes: bool)
    ensures
        yes == colour_shaped(value@),
{
    if value.unicode_len() != 7 {
        return false;
    }
    if value.get_char(0) != '#' {
        return false;
    }
    let mut i: usize = 1;
    while i < 7
        invariant
            1 <= i <= 7,
            value@.len() == 7,
            forall|j: int| 1 <= j < i ==> lower_hex(#[trigger] value@[j]),
        decreases 7 - i,
    {
        let c = value.get_char(i);
        if !(('0' <= c && c <= '9') || ('a' <= c && c <= 'f')) {
            proof {
                assert(!lower_hex(value@[i as int]));
            }
            return false;
        }
        i += 1;
    }
    true
}

/// An address as it is stored: trimmed, and absent when nothing is left.
pub open spec fn stored_email(email: Option<Seq<char>>) -> Option<Seq<char>> {
    match email {
        Some(text) => if trimmed(text).len() == 0 {
            None
        } else {
            Some(trimmed(text))
        },
        None => None,
    }
}

/// The branding to store: the colour normalised and checked, the rest trimmed.
pub fn write(branding: &Branding) -> (stored: Result<Branding, Error>)
    ensures
        stored is Ok <==> colour_shaped(ascii_lowered(trimmed(branding.accent@))),
        stored matches Ok(row) ==> {
            &&& row.site_name@ == trimmed(branding.site_name@)
            &&& row.logo_asset_id == branding.logo_asset_id
            &&& row.accent@ == ascii_lowered(trimmed(branding.accent@))
            &&& opt_chars(row.support_email) == stored_email(opt_chars(branding.support_email))
        },
        stored matches Err(error) ==> error matches Error::Unsupported(detail) && detail@
            == quoted_chars(branding.accent@)
            + " is not a colour; use lowercase #rrggbb, as in "@ + DEFAULT_ACCENT@,
{
    let accent = ascii_lowercase(trim(branding.accent.as_str()));
    if !is_hex_colour(accent.as_str()) {
        let mut detail = quoted(branding.accent.as_str());
        detail.append(" is not a colour; use lowercase #rrggbb, as in ");
        detail.append(DEFAULT_ACCENT);
        return Err(Error::Unsupported(detail));
    }
    let support_email = match &branding.support_email {
        Some(text) => {
            let email = trim(text.as_str());
            if email.is_empty() {
                None
            } else {
                Some(email.to_owned())
            }
        },
        None => None,
    };
    Ok(
        Branding {
            site_name: trim(branding.site_name.as_str()).to_owned(),
            logo_asset_id: branding.logo_asset_id,
            accent,
            support_email,
        },
    )
}

/// A colour that is stored cannot end a style rule: it is a hash and six hexadecimal digits.
pub proof fn a_stored_colour_is_safe_in_css(value: Seq<char>, i: int)
    requires
        colour_shaped(value),
        0 <= i < value.len(),
    ensures
        value[i] == '#' || lower_hex(value[i]),
{
}

/// A colour is a hash and six digits, and a digit is written with a small letter: no capital, no space and nothing else is
/// one.
pub proof fn a_colour_is_written_one_way(value: Seq<char>, c: char)
    ensures
        lower_hex(c) <==> '0' <= c <= '9' || 'a' <= c <= 'f',
        colour_shaped(value) ==> value.len() == 7 && value[0] == '#',
        'A' <= c <= 'Z' || c == ' ' || c == '#' || 'g' <= c <= 'z' ==> !lower_hex(c),
{
}

/// An address that is blank is none, and one that is stored has no white space around it.
pub proof fn a_blank_address_is_none(text: Seq<char>)
    ensures
        stored_email(None) is None,
        stored_email(Some(text)) is None <==> trimmed(text).len() == 0,
        stored_email(Some(text)) matches Some(kept) ==> kept == trimmed(text),
{
}

// ----------------------------------------------------------------------------------------------------
// Commands
// ----------------------------------------------------------------------------------------------------

pub const STORED: &'static str =
    "SELECT site_name, logo_asset_id, accent, support_email FROM site_branding WHERE id";

/// The branding, where any is stored.
pub fn stored() -> (command: Command)
    ensures
        command.says(
            "SELECT site_name, logo_asset_id, accent, support_email FROM site_branding WHERE id"@,
            Seq::empty(),
        ),
{
    Command::new(STORED, Vec::new())
}

pub const WRITE_ROW: &'static str =
    "UPDATE site_branding SET site_name = $1, logo_asset_id = $2, accent = $3, support_email = $4, \
     updated_at = now() WHERE id";

/// The branding as it was checked.
pub fn write_row(row: &Branding) -> (command: Command)
    ensures
        command.says(
            "UPDATE site_branding SET site_name = $1, logo_asset_id = $2, accent = $3, support_email = $4, \
             updated_at = now() WHERE id"@,
            seq![
                Given::Text(row.site_name@), Given::MaybeId(row.logo_asset_id),
                Given::Text(row.accent@), Given::MaybeText(opt_chars(row.support_email)),
            ],
        ),
{
    Command::new(
        WRITE_ROW,
        vec![
            as_text(row.site_name.as_str()), Value::MaybeId(row.logo_asset_id),
            as_text(row.accent.as_str()), as_maybe_text(&row.support_email),
        ],
    )
}

} // verus!

//! Named download formats.
//!
//! A conversion never widens anything: the asset's own Download gate is passed before this module is asked, and
//! what is offered can only narrow what that allowed. A format is withdrawn and never deleted, because a link
//! already sent carries its key.

use crate::commands::{as_maybe_text, as_text, Command, Given, Value};
use crate::text::{
    before_first, contains, cut, digit_char, holds, opt_chars, same, trim, trimmed, uuid_chars, uuid_text,
};
use crate::{Instant, Uuid};
use vstd::prelude::*;

verus! {

/// Why a conversion could not be written.
#[derive(Debug, Clone, PartialEq, Eq)]
pub enum ConversionRefusal {
    /// The key is already taken.
    DuplicateKey(String),
    /// A field the database refuses. Carries the constraint's own name.
    Invalid(String),
    /// No such conversion.
    Unknown(Uuid),
}

impl ConversionRefusal {
    /// The text of this refusal.
    pub open spec fn message_chars(self) -> Seq<char> {
        match self {
            ConversionRefusal::DuplicateKey(given) => "a conversion named "@ + given@ + " already exists"@,
            ConversionRefusal::Invalid(given) => given@,
            ConversionRefusal::Unknown(given) => "no conversion "@ + uuid_chars(given),
        }
    }

    /// The sentence whoever was refused reads.
    pub fn message(&self) -> (out: String)
        ensures
            out@ == self.message_chars(),
    {
        match self {
            ConversionRefusal::DuplicateKey(given) => {
                let mut out = "a conversion named ".to_owned();
                out.append(given.as_str());
                out.append(" already exists");
                out
            },
            ConversionRefusal::Invalid(given) => given.as_str().to_owned(),
            ConversionRefusal::Unknown(given) => {
                let mut out = "no conversion ".to_owned();
                out.append(uuid_text(*given).as_str());
                out
            },
        }
    }
}

/// What a rendition is encoded as.
#[derive(Debug, Clone, Copy, PartialEq, Eq, Structural)]
pub enum OutputFormat {
    Jpeg,
    Png,
    WebP,
    Avif,
}

/// How an image fills its box.
#[derive(Debug, Clone, Copy, PartialEq, Eq, Structural)]
pub enum Fit {
    Contain,
    Cover,
}

/// A recipe, as the renderer takes it.
#[derive(Debug, Clone, Copy, PartialEq, Eq)]
pub struct Rendition {
    pub width: u32,
    pub height: u32,
    pub format: OutputFormat,
    pub quality: u8,
    pub fit: Fit,
    pub background: [u8; 3],
}

/// One named download format.
#[derive(Debug, Clone, PartialEq, Eq)]
pub struct Conversion {
    pub id: Uuid,
    pub key: String,
    pub label: String,
    pub description: String,
    pub media_class: String,
    pub max_width: i32,
    pub max_height: i32,
    pub format: String,
    pub quality: i32,
    pub fit: String,
    pub background: String,
    pub required_permission: Option<String>,
    pub is_active: bool,
    pub sort_order: i32,
    pub created_at: Instant,
}

/// The format a word names.
pub open spec fn format_of(word: Seq<char>) -> Option<OutputFormat> {
    if word == "jpeg"@ {
        Some(OutputFormat::Jpeg)
    } else if word == "png"@ {
        Some(OutputFormat::Png)
    } else if word == "webp"@ {
        Some(OutputFormat::WebP)
    } else if word == "avif"@ {
        Some(OutputFormat::Avif)
    } else {
        None
    }
}

/// The fit a word names.
pub open spec fn fit_of(word: Seq<char>) -> Option<Fit> {
    if word == "contain"@ {
        Some(Fit::Contain)
    } else if word == "cover"@ {
        Some(Fit::Cover)
    } else {
        None
    }
}

/// The value of a lower-case hexadecimal digit.
pub open spec fn hex_value(c: char) -> Option<int> {
    if '0' <= c <= '9' {
        Some(c as int - '0' as int)
    } else if 'a' <= c <= 'f' {
        Some(c as int - 'a' as int + 10)
    } else {
        None
    }
}

/// The byte two lower-case hexadecimal digits spell.
pub open spec fn hex_byte(high: char, low: char) -> Option<int> {
    match (hex_value(high), hex_value(low)) {
        (Some(h), Some(l)) => Some(16 * h + l),
        _ => None,
    }
}

/// The colour six lower-case hexadecimal digits spell. Anything else spells none.
pub open spec fn rgb(hex: Seq<char>) -> Option<(int, int, int)> {
    if hex.len() == 6 {
        match (hex_byte(hex[0], hex[1]), hex_byte(hex[2], hex[3]), hex_byte(hex[4], hex[5])) {
            (Some(r), Some(g), Some(b)) => Some((r, g, b)),
            _ => None,
        }
    } else {
        None
    }
}

/// A colour in six lower-case hexadecimal digits.
pub open spec fn hex_chars(r: int, g: int, b: int) -> Seq<char> {
    seq![
        digit_char(r / 16), digit_char(r % 16), digit_char(g / 16), digit_char(g % 16),
        digit_char(b / 16), digit_char(b % 16),
    ]
}

fn digit_value(c: char) -> (value: Option<u8>)
    ensures
        match value {
            Some(inner) => hex_value(c) == Some(inner as int) && inner < 16,
            None => hex_value(c) is None,
        },
{
    if '0' <= c && c <= '9' {
        Some(c as u8 - 48)
    } else if 'a' <= c && c <= 'f' {
        Some(c as u8 - 87)
    } else {
        None
    }
}

fn byte_value(high: char, low: char) -> (value: Option<u8>)
    ensures
        match value {
            Some(inner) => hex_byte(high, low) == Some(inner as int),
            None => hex_byte(high, low) is None,
        },
{
    match (digit_value(high), digit_value(low)) {
        (Some(h), Some(l)) => Some(16 * h + l),
        _ => None,
    }
}

/// Six lower-case hexadecimal digits as a byte triple. Capitals, signs and anything else are no colour.
pub fn hex_rgb(hex: &str) -> (colour: Option<[u8; 3]>)
    ensures
        match colour {
            Some(bytes) => rgb(hex@) == Some((bytes[0] as int, bytes[1] as int, bytes[2] as int)),
            None => rgb(hex@) is None,
        },
{
    if hex.unicode_len() != 6 {
        return None;
    }
    match (
        byte_value(hex.get_char(0), hex.get_char(1)),
        byte_value(hex.get_char(2), hex.get_char(3)),
        byte_value(hex.get_char(4), hex.get_char(5)),
    ) {
        (Some(r), Some(g), Some(b)) => Some([r, g, b]),
        _ => None,
    }
}

/// A text is read as a colour exactly when it is that colour in six lower-case hexadecimal digits.
pub proof fn a_colour_is_its_six_digits(hex: Seq<char>, r: int, g: int, b: int)
    requires
        0 <= r < 256,
        0 <= g < 256,
        0 <= b < 256,
    ensures
        rgb(hex) == Some((r, g, b)) <==> hex == hex_chars(r, g, b),
{
    if rgb(hex) == Some((r, g, b)) {
        lemma_byte_digits(hex[0], hex[1], r);
        lemma_byte_digits(hex[2], hex[3], g);
        lemma_byte_digits(hex[4], hex[5], b);
        assert(hex =~= hex_chars(r, g, b));
    }
    if hex == hex_chars(r, g, b) {
        lemma_byte_digits(hex[0], hex[1], r);
        lemma_byte_digits(hex[2], hex[3], g);
        lemma_byte_digits(hex[4], hex[5], b);
    }
}

proof fn lemma_byte_digits(high: char, low: char, byte: int)
    requires
        0 <= byte < 256,
    ensures
        hex_byte(high, low) == Some(byte) <==> high == digit_char(byte / 16) && low == digit_char(
            byte % 16,
        ),
{
    lemma_digit(high, byte / 16);
    lemma_digit(low, byte % 16);
    if hex_byte(high, low) == Some(byte) {
        let h = hex_value(high)->0;
        let l = hex_value(low)->0;
        assert(0 <= l < 16);
        assert(byte / 16 == h && byte % 16 == l);
    }
}

proof fn lemma_digit(c: char, digit: int)
    requires
        0 <= digit < 16,
    ensures
        hex_value(c) == Some(digit) <==> c == digit_char(digit),
{
}

proof fn lemma_the_words_differ()
    ensures
        "jpeg"@ != "png"@,
        "jpeg"@ != "webp"@,
        "jpeg"@ != "avif"@,
        "png"@ != "webp"@,
        "png"@ != "avif"@,
        "webp"@ != "avif"@,
        "contain"@ != "cover"@,
{
    reveal_strlit("jpeg");
    reveal_strlit("png");
    reveal_strlit("webp");
    reveal_strlit("avif");
    reveal_strlit("contain");
    reveal_strlit("cover");
    assert("jpeg"@[0] == 'j' && "png"@[0] == 'p' && "webp"@[0] == 'w' && "avif"@[0] == 'a');
    assert("contain"@.len() == 7 && "cover"@.len() == 5);
}

impl Conversion {
    /// Whether this build can render the recipe: every word is one it knows and every number fits.
    pub open spec fn renderable(self) -> bool {
        &&& format_of(self.format@) is Some
        &&& fit_of(self.fit@) is Some
        &&& rgb(self.background@) is Some
        &&& self.max_width >= 0
        &&& self.max_height >= 0
        &&& 0 <= self.quality <= 255
    }

    /// Whether `recipe` is what this conversion's columns say.
    pub open spec fn recipe_is(self, recipe: Rendition) -> bool {
        &&& recipe.width == self.max_width
        &&& recipe.height == self.max_height
        &&& Some(recipe.format) == format_of(self.format@)
        &&& recipe.quality == self.quality
        &&& Some(recipe.fit) == fit_of(self.fit@)
        &&& rgb(self.background@) == Some(
            (
                recipe.background[0] as int,
                recipe.background[1] as int,
                recipe.background[2] as int,
            ),
        )
    }

    /// The recipe, as the renderer takes it. `None` when a stored value is one this build cannot render: during a
    /// rolling deploy an older binary must refuse a row rather than approximate it.
    pub fn rendition(&self) -> (recipe: Option<Rendition>)
        ensures
            recipe is Some <==> self.renderable(),
            recipe matches Some(inner) ==> self.recipe_is(inner),
            recipe matches Some(inner) ==> {
                &&& inner.format == OutputFormat::Jpeg <==> self.format@ == "jpeg"@
                &&& inner.format == OutputFormat::Png <==> self.format@ == "png"@
                &&& inner.format == OutputFormat::WebP <==> self.format@ == "webp"@
                &&& inner.format == OutputFormat::Avif <==> self.format@ == "avif"@
                &&& inner.fit == Fit::Contain <==> self.fit@ == "contain"@
                &&& inner.fit == Fit::Cover <==> self.fit@ == "cover"@
                &&& inner.width == self.max_width
                &&& inner.height == self.max_height
                &&& inner.quality == self.quality
                &&& self.background@ == hex_chars(
                    inner.background[0] as int,
                    inner.background[1] as int,
                    inner.background[2] as int,
                )
            },
    {
        proof {
            lemma_the_words_differ();
        }
        let word = self.format.as_str();
        let format = if same(word, "jpeg") {
            OutputFormat::Jpeg
        } else if same(word, "png") {
            OutputFormat::Png
        } else if same(word, "webp") {
            OutputFormat::WebP
        } else if same(word, "avif") {
            OutputFormat::Avif
        } else {
            return None;
        };
        let fit = if same(self.fit.as_str(), "contain") {
            Fit::Contain
        } else if same(self.fit.as_str(), "cover") {
            Fit::Cover
        } else {
            return None;
        };
        match hex_rgb(self.background.as_str()) {
            None => None,
            Some(background) => if self.max_width < 0 || self.max_height < 0 || self.quality < 0
                || self.quality > 255 {
                None
            } else {
                proof {
                    a_colour_is_its_six_digits(
                        self.background@,
                        background[0] as int,
                        background[1] as int,
                        background[2] as int,
                    );
                }
                Some(
                    Rendition {
                        width: self.max_width as u32,
                        height: self.max_height as u32,
                        format,
                        quality: self.quality as u8,
                        fit,
                        background,
                    },
                )
            },
        }
    }

    /// The cache key a rendered derivative is stored under: the renderer's digest of the recipe, so that a
    /// redefinition is a different key. `None` for a recipe this build cannot render.
    pub fn op_hash<F: Fn(&Rendition) -> String>(&self, digest: F) -> (key: Option<String>)
        requires
            forall|recipe: Rendition| digest.requires((&recipe,)),
        ensures
            key is Some <==> self.renderable(),
            key matches Some(text) ==> exists|recipe: Rendition|
                self.recipe_is(recipe) && digest.ensures((&recipe,), text),
    {
        match self.rendition() {
            Some(recipe) => Some(digest(&recipe)),
            None => None,
        }
    }

    /// Whether a caller who holds `permissions` may use this format: no permission named means anybody.
    pub open spec fn permits(self, permissions: Seq<String>) -> bool {
        match self.required_permission {
            None => true,
            Some(required) => holds(permissions, required@),
        }
    }

    /// Whether a caller holding `permissions` may use this format.
    pub fn permitted_for(&self, permissions: &Vec<String>) -> (yes: bool)
        ensures
            yes == self.permits(permissions@),
            self.required_permission is None ==> yes,
            self.required_permission matches Some(required) ==> (yes <==> exists|i: int|
                0 <= i < permissions@.len() && (#[trigger] permissions@[i])@ == required@),
    {
        match &self.required_permission {
            None => true,
            Some(required) => contains(permissions, required.as_str()),
        }
    }
}

/// Whether two recipes agree on everything that is rendered.
pub open spec fn same_recipe(a: Rendition, b: Rendition) -> bool {
    &&& a.width == b.width
    &&& a.height == b.height
    &&& a.format == b.format
    &&& a.quality == b.quality
    &&& a.fit == b.fit
    &&& a.background[0] == b.background[0]
    &&& a.background[1] == b.background[1]
    &&& a.background[2] == b.background[2]
}

/// A cache key comes from the recipe and from nothing else: formats that are named, described, ordered or guarded
/// differently but rendered alike have one recipe, and formats that are sized, encoded or fitted differently have two.
pub proof fn the_recipe_is_what_is_rendered(a: Conversion, x: Rendition, b: Conversion, y: Rendition)
    requires
        a.recipe_is(x),
        b.recipe_is(y),
    ensures
        a.max_width == b.max_width && a.max_height == b.max_height && a.format@ == b.format@ && a.quality
            == b.quality && a.fit@ == b.fit@ && rgb(a.background@) == rgb(b.background@) ==> same_recipe(
            x,
            y,
        ),
        same_recipe(x, y) ==> a.max_width == b.max_width && a.max_height == b.max_height && a.format@
            == b.format@ && a.quality == b.quality && a.fit@ == b.fit@ && rgb(a.background@) == rgb(
            b.background@,
        ),
{
}

/// A recipe is encoded as its column's word says, and fitted as its column's word says: each of the four formats and each
/// of the two fits comes from one word and no other, and a word that is none of them is rendered as nothing.
pub proof fn a_recipe_follows_its_words(conversion: Conversion, recipe: Rendition)
    ensures
        conversion.recipe_is(recipe) ==> {
            &&& recipe.format == OutputFormat::Jpeg <==> conversion.format@ == "jpeg"@
            &&& recipe.format == OutputFormat::Png <==> conversion.format@ == "png"@
            &&& recipe.format == OutputFormat::WebP <==> conversion.format@ == "webp"@
            &&& recipe.format == OutputFormat::Avif <==> conversion.format@ == "avif"@
            &&& recipe.fit == Fit::Contain <==> conversion.fit@ == "contain"@
            &&& recipe.fit == Fit::Cover <==> conversion.fit@ == "cover"@
            &&& recipe.width == conversion.max_width
            &&& recipe.height == conversion.max_height
            &&& recipe.quality == conversion.quality
        },
        conversion.renderable() <==> {
            &&& conversion.format@ == "jpeg"@ || conversion.format@ == "png"@ || conversion.format@ == "webp"@
                || conversion.format@ == "avif"@
            &&& conversion.fit@ == "contain"@ || conversion.fit@ == "cover"@
            &&& rgb(conversion.background@) is Some
            &&& conversion.max_width >= 0 && conversion.max_height >= 0
            &&& 0 <= conversion.quality < 256
        },
{
    lemma_the_words_differ();
}

/// A conversion to create, or the new definition of one.
#[derive(Debug, Clone, PartialEq, Eq)]
pub struct NewConversion {
    pub key: String,
    pub label: String,
    pub description: String,
    pub media_class: String,
    pub max_width: i32,
    pub max_height: i32,
    pub format: String,
    pub quality: i32,
    pub fit: String,
    pub background: String,
    pub required_permission: Option<String>,
    pub sort_order: i32,
}

/// The words of a conversion as they are stored: key, label and description without the white space around them.
pub fn stored_words(new: &NewConversion) -> (words: (&str, &str, &str))
    ensures
        words.0@ == trimmed(new.key@),
        words.1@ == trimmed(new.label@),
        words.2@ == trimmed(new.description@),
{
    (trim(new.key.as_str()), trim(new.label.as_str()), trim(new.description.as_str()))
}

/// What became of creating a conversion: no row means the unique index refused the key.
pub fn created(
    row: Option<Conversion>,
    new: &NewConversion,
) -> (outcome: Result<Conversion, ConversionRefusal>)
    ensures
        match row {
            Some(conversion) => outcome == Ok::<Conversion, ConversionRefusal>(conversion),
            None => outcome matches Err(ConversionRefusal::DuplicateKey(key)) && key@ == trimmed(
                new.key@,
            ),
        },
{
    match row {
        Some(conversion) => Ok(conversion),
        None => Err(ConversionRefusal::DuplicateKey(trim(new.key.as_str()).to_owned())),
    }
}

/// What became of changing a conversion: no row means there is none.
pub fn changed(
    row: Option<Conversion>,
    id: Uuid,
) -> (outcome: Result<Conversion, ConversionRefusal>)
    ensures
        outcome == match row {
            Some(conversion) => Ok::<Conversion, ConversionRefusal>(conversion),
            None => Err(ConversionRefusal::Unknown(id)),
        },
{
    match row {
        Some(conversion) => Ok(conversion),
        None => Err(ConversionRefusal::Unknown(id)),
    }
}

/// What a database error means: a violated check names its constraint, and anything else is no refusal. `code`
/// is the error's code, matched rather than its message, which is localised.
pub fn constraint_or_database(
    code: &Option<String>,
    constraint: Option<String>,
) -> (refusal: Option<ConversionRefusal>)
    ensures
        match code {
            Some(word) => if word@ == "23514"@ {
                match constraint {
                    Some(name) => refusal == Some(ConversionRefusal::Invalid(name)),
                    None => refusal matches Some(ConversionRefusal::Invalid(name)) && name@
                        == "a value the database refuses"@,
                }
            } else {
                refusal is None
            },
            None => refusal is None,
        },
{
    match code {
        Some(word) => if same(word.as_str(), "23514") {
            match constraint {
                Some(name) => Some(ConversionRefusal::Invalid(name)),
                None => Some(ConversionRefusal::Invalid("a value the database refuses".to_owned())),
            }
        } else {
            None
        },
        None => None,
    }
}

/// What to offer a caller who holds `permissions`, of the active conversions for a media class: those they may
/// use and this build can render, in the order given. A format the caller has no permission for is absent, not
/// shown and refused.
pub fn offerable(
    active: Vec<Conversion>,
    permissions: &Vec<String>,
) -> (offered: Vec<Conversion>)
    ensures
        offered@ == active@.filter(
            |conversion: Conversion| conversion.permits(permissions@) && conversion.renderable(),
        ),
{
    let ghost all = active@;
    let ghost keep = |conversion: Conversion|
        conversion.permits(permissions@) && conversion.renderable();
    let mut offered: Vec<Conversion> = Vec::new();
    proof {
        crate::lists::lemma_filter_ends(all, keep);
    }
    for conversion in each: active
        invariant
            each.seq() == all,
            keep == (|conversion: Conversion|
                conversion.permits(permissions@) && conversion.renderable()),
            offered@ == all.take(each.index()).filter(keep),
    {
        proof {
            crate::lists::lemma_filter_step(all, keep, each.index());
        }
        if conversion.permitted_for(permissions) && conversion.rendition().is_some() {
            offered.push(conversion);
        }
    }
    offered
}

/// The class a mime belongs to, by what stands before its slash. Everything unrecognised is a document: the
/// fallback has to be the class with no conversions.
pub open spec fn class_chars(mime: Seq<char>) -> Seq<char> {
    let top = before_first(mime, '/');
    if top == "image"@ {
        "image"@
    } else if top == "video"@ {
        "video"@
    } else if top == "audio"@ {
        "audio"@
    } else {
        "document"@
    }
}

/// Which media class an asset's mime belongs to.
pub fn class_of(mime: &str) -> (class: &'static str)
    ensures
        class@ == class_chars(mime@),
        before_first(mime@, '/') == "image"@ ==> class@ == "image"@,
        before_first(mime@, '/') == "video"@ ==> class@ == "video"@,
        before_first(mime@, '/') == "audio"@ ==> class@ == "audio"@,
        before_first(mime@, '/') != "image"@ && before_first(mime@, '/') != "video"@ && before_first(mime@, '/')
            != "audio"@ ==> class@ == "document"@,
{
    let top = match cut(mime, '/') {
        Some((top, _)) => top,
        None => mime,
    };
    if same(top, "image") {
        "image"
    } else if same(top, "video") {
        "video"
    } else if same(top, "audio") {
        "audio"
    } else {
        "document"
    }
}

/// A conversion only narrows: everything offered was active, is permitted to the caller and can be rendered, and
/// nothing that is all three is left out.
pub proof fn offering_only_narrows(
    active: Seq<Conversion>,
    permissions: Seq<String>,
    conversion: Conversion,
)
    ensures
        active.filter(|c: Conversion| c.permits(permissions) && c.renderable()).contains(conversion)
            <==> active.contains(conversion) && conversion.permits(permissions)
            && conversion.renderable(),
{
    crate::lists::lemma_filter_keeps(
        active,
        |c: Conversion| c.permits(permissions) && c.renderable(),
        conversion,
    );
}

// ----------------------------------------------------------------------------------------------------
// Commands
// ----------------------------------------------------------------------------------------------------

pub const INSERT: &'static str =
    "INSERT INTO conversions (id, key, label, description, media_class, max_width, max_height, format, \
     quality, fit, background, required_permission, sort_order, created_by) VALUES (gen_random_uuid(), $1, \
     $2, $3, $4, $5, $6, $7, $8, $9, $10, $11, $12, $13) ON CONFLICT (key) DO NOTHING RETURNING id, key, \
     label, description, media_class, max_width, max_height, format, quality, fit, background, \
     required_permission, is_active, sort_order, created_at";

/// A new format, unless its key is taken.
pub fn insert(new: &NewConversion, created_by: Option<Uuid>) -> (command: Command)
    ensures
        command.says(
            "INSERT INTO conversions (id, key, label, description, media_class, max_width, max_height, format, \
             quality, fit, background, required_permission, sort_order, created_by) VALUES (gen_random_uuid(), $1, \
             $2, $3, $4, $5, $6, $7, $8, $9, $10, $11, $12, $13) ON CONFLICT (key) DO NOTHING RETURNING id, key, \
             label, description, media_class, max_width, max_height, format, quality, fit, background, \
             required_permission, is_active, sort_order, created_at"@,
            seq![
                Given::Text(trimmed(new.key@)), Given::Text(trimmed(new.label@)),
                Given::Text(trimmed(new.description@)), Given::Text(new.media_class@),
                Given::Whole(new.max_width), Given::Whole(new.max_height), Given::Text(new.format@),
                Given::Whole(new.quality), Given::Text(new.fit@), Given::Text(new.background@),
                Given::MaybeText(opt_chars(new.required_permission)), Given::Whole(new.sort_order),
                Given::MaybeId(created_by),
            ],
        ),
{
    Command::new(
        INSERT,
        vec![
            as_text(stored_words(new).0), as_text(stored_words(new).1), as_text(stored_words(new).2),
            as_text(new.media_class.as_str()), Value::Whole(new.max_width),
            Value::Whole(new.max_height), as_text(new.format.as_str()), Value::Whole(new.quality),
            as_text(new.fit.as_str()), as_text(new.background.as_str()),
            as_maybe_text(&new.required_permission), Value::Whole(new.sort_order),
            Value::MaybeId(created_by),
        ],
    )
}

pub const REDEFINE: &'static str =
    "UPDATE conversions SET label = $2, description = $3, media_class = $4, max_width = $5, max_height = \
     $6, format = $7, quality = $8, fit = $9, background = $10, required_permission = $11, sort_order = \
     $12, updated_at = now() WHERE id = $1 RETURNING id, key, label, description, media_class, max_width, \
     max_height, format, quality, fit, background, required_permission, is_active, sort_order, created_at";

/// A format as it is defined now. Its key stays.
pub fn redefine(id: Uuid, new: &NewConversion) -> (command: Command)
    ensures
        command.says(
            "UPDATE conversions SET label = $2, description = $3, media_class = $4, max_width = $5, max_height = \
             $6, format = $7, quality = $8, fit = $9, background = $10, required_permission = $11, sort_order = \
             $12, updated_at = now() WHERE id = $1 RETURNING id, key, label, description, media_class, max_width, \
             max_height, format, quality, fit, background, required_permission, is_active, sort_order, created_at"@,
            seq![
                Given::Id(id), Given::Text(trimmed(new.label@)), Given::Text(trimmed(new.description@)),
                Given::Text(new.media_class@), Given::Whole(new.max_width),
                Given::Whole(new.max_height), Given::Text(new.format@), Given::Whole(new.quality),
                Given::Text(new.fit@), Given::Text(new.background@),
                Given::MaybeText(opt_chars(new.required_permission)), Given::Whole(new.sort_order),
            ],
        ),
{
    Command::new(
        REDEFINE,
        vec![
            Value::Id(id), as_text(stored_words(new).1), as_text(stored_words(new).2),
            as_text(new.media_class.as_str()), Value::Whole(new.max_width),
            Value::Whole(new.max_height), as_text(new.format.as_str()), Value::Whole(new.quality),
            as_text(new.fit.as_str()), as_text(new.background.as_str()),
            as_maybe_text(&new.required_permission), Value::Whole(new.sort_order),
        ],
    )
}

pub const SET_ACTIVE: &'static str =
    "UPDATE conversions SET is_active = $2, updated_at = now() WHERE id = $1 RETURNING id, key, label, \
     description, media_class, max_width, max_height, format, quality, fit, background, \
     required_permission, is_active, sort_order, created_at";

/// A format, offered or not.
pub fn set_active(id: Uuid, active: bool) -> (command: Command)
    ensures
        command.says(
            "UPDATE conversions SET is_active = $2, updated_at = now() WHERE id = $1 RETURNING id, key, label, \
             description, media_class, max_width, max_height, format, quality, fit, background, \
             required_permission, is_active, sort_order, created_at"@,
            seq![Given::Id(id), Given::Flag(active)],
        ),
{
    Command::new(SET_ACTIVE, vec![Value::Id(id), Value::Flag(active)])
}

pub const ALL: &'static str =
    "SELECT id, key, label, description, media_class, max_width, max_height, format, quality, fit, \
     background, required_permission, is_active, sort_order, created_at FROM conversions ORDER BY is_active \
     DESC, sort_order, key";

/// Every format, those offered first.
pub fn all() -> (command: Command)
    ensures
        command.says(
            "SELECT id, key, label, description, media_class, max_width, max_height, format, quality, fit, \
             background, required_permission, is_active, sort_order, created_at FROM conversions ORDER BY is_active \
             DESC, sort_order, key"@,
            Seq::empty(),
        ),
{
    Command::new(ALL, Vec::new())
}

pub const OF_CLASS: &'static str =
    "SELECT id, key, label, description, media_class, max_width, max_height, format, quality, fit, \
     background, required_permission, is_active, sort_order, created_at FROM conversions WHERE is_active \
     AND media_class = $1 ORDER BY sort_order, key";

/// The formats offered for a class of media.
pub fn of_class(media_class: &str) -> (command: Command)
    ensures
        command.says(
            "SELECT id, key, label, description, media_class, max_width, max_height, format, quality, fit, \
             background, required_permission, is_active, sort_order, created_at FROM conversions WHERE is_active \
             AND media_class = $1 ORDER BY sort_order, key"@,
            seq![Given::Text(media_class@)],
        ),
{
    Command::new(OF_CLASS, vec![as_text(media_class)])
}

pub const BY_KEY: &'static str =
    "SELECT id, key, label, description, media_class, max_width, max_height, format, quality, fit, \
     background, required_permission, is_active, sort_order, created_at FROM conversions WHERE key = $1";

/// A format by its key.
pub fn by_key(key: &str) -> (command: Command)
    ensures
        command.says(
            "SELECT id, key, label, description, media_class, max_width, max_height, format, quality, fit, \
             background, required_permission, is_active, sort_order, created_at FROM conversions WHERE key = $1"@,
            seq![Given::Text(key@)],
        ),
{
    Command::new(BY_KEY, vec![as_text(key)])
}

} // verus!

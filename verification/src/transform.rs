//! The rotation that a scene node takes from its `rotate` attribute.
//!
//! A node may say `rotate: "45deg"`. Resolving that takes three steps, and
//! only the middle one is not done here:
//!
//! 1. [`rotation_texts`] picks, from the attributes that the node shows, the
//!    texts that end in the unit and takes the unit off;
//! 2. the caller reads each of those texts as a decimal number;
//! 3. [`Transform::apply`] stores the last number that could be read and
//!    tells whether the rotation is another than before.
//!
//! [`Transform::update`] goes through all three with a reader that the caller
//! hands it.

use vstd::prelude::*;
use vstd::string::*;
use crate::degrees::Degrees;
use crate::text::{ends_with, same_text};

verus! {

/// One attribute of a node, as far as a rotation depends on it.
#[derive(Clone, Debug, PartialEq, Eq)]
pub struct Attribute {
    pub name: String,
    /// The attribute's value where that is a text, nothing where it is of
    /// another kind.
    pub text: Option<String>,
}

/// An [`Attribute`] as plain sequences of characters.
pub struct AttributeView {
    pub name: Seq<char>,
    pub text: Option<Seq<char>>,
}

impl View for Attribute {
    type V = AttributeView;

    open spec fn view(&self) -> AttributeView {
        AttributeView {
            name: self.name@,
            text: match self.text {
                Some(text) => Some(text@),
                None => None,
            },
        }
    }
}

/// The attributes of a node as plain sequences of characters.
pub open spec fn views(attributes: Seq<Attribute>) -> Seq<AttributeView> {
    attributes.map_values(|attribute: Attribute| attribute@)
}

/// The name of the one attribute that a rotation is read from.
pub open spec fn rotate_name() -> Seq<char> {
    seq!['r', 'o', 't', 'a', 't', 'e']
}

/// The unit that a rotation is written in.
pub open spec fn unit() -> Seq<char> {
    seq!['d', 'e', 'g']
}

/// The text ends with the unit.
pub open spec fn has_unit(text: Seq<char>) -> bool {
    unit().is_suffix_of(text)
}

/// What stands before the unit, for a text that ends with it.
pub open spec fn numeric_part(text: Seq<char>) -> Option<Seq<char>> {
    if has_unit(text) {
        Some(text.subrange(0, text.len() - unit().len()))
    } else {
        None
    }
}

/// The attribute is one that a rotation may be read from.
pub open spec fn is_supported(attribute: AttributeView) -> bool {
    attribute.name == rotate_name()
}

/// Every attribute is one that a rotation may be read from.
pub open spec fn all_supported(attributes: Seq<AttributeView>) -> bool {
    forall|i: int| 0 <= i < attributes.len() ==> is_supported(#[trigger] attributes[i])
}

/// The text that is to be read as a number, where the attribute has one: its
/// value is a text, and the text ends with the unit.
pub open spec fn candidate(attribute: AttributeView) -> Option<Seq<char>> {
    match attribute.text {
        Some(text) => numeric_part(text),
        None => None,
    }
}

/// The texts that are to be read as numbers, in the order of the attributes.
pub open spec fn candidates(attributes: Seq<AttributeView>) -> Seq<Seq<char>> {
    attributes.filter_map(|attribute: AttributeView| candidate(attribute))
}

/// The last reading that gave a number, if any did.
pub open spec fn last_reading(readings: Seq<Option<Degrees>>) -> Option<Degrees>
    decreases readings.len(),
{
    if readings.len() == 0 {
        None
    } else if readings.last() is Some {
        readings.last()
    } else {
        last_reading(readings.drop_last())
    }
}

/// Two rotations are the same: both unset, or both set to the same number.
pub open spec fn same_rotation(left: Option<Degrees>, right: Option<Degrees>) -> bool {
    match (left, right) {
        (None, None) => true,
        (Some(a), Some(b)) => a.same_number(b),
        _ => false,
    }
}

/// The rotation is unset or a number.
pub open spec fn is_comparable(rotation: Option<Degrees>) -> bool {
    match rotation {
        Some(angle) => !angle.is_nan(),
        None => true,
    }
}

/// What the texts of the attributes are read as when `reading` says which
/// number, if any, a text stands for.
pub open spec fn readings_of(
    attributes: Seq<AttributeView>,
    reading: spec_fn(Seq<char>) -> Option<Degrees>,
) -> Seq<Option<Degrees>> {
    candidates(attributes).map_values(reading)
}

/// What the attributes resolve to under `reading`.
pub open spec fn resolved(
    attributes: Seq<AttributeView>,
    reading: spec_fn(Seq<char>) -> Option<Degrees>,
) -> Option<Degrees> {
    last_reading(readings_of(attributes, reading))
}

/// A `rotate` attribute with the given text for its value.
pub open spec fn rotate_text(text: Seq<char>) -> AttributeView {
    AttributeView { name: rotate_name(), text: Some(text) }
}

/// A call of `read` on the text can answer with `reading`.
pub open spec fn may_read<F: Fn(&str) -> Option<Degrees>>(
    read: F,
    text: Seq<char>,
    reading: Option<Degrees>,
) -> bool {
    exists|given: &str| given@ == text && #[trigger] call_ensures(read, (given,), reading)
}

/// `readings` is what `read` made of `texts`: as many readings as texts, each
/// one an answer of `read` to the text in its place.
pub open spec fn read_from<F: Fn(&str) -> Option<Degrees>>(
    read: F,
    texts: Seq<Seq<char>>,
    readings: Seq<Option<Degrees>>,
) -> bool {
    &&& readings.len() == texts.len()
    &&& forall|i: int| 0 <= i < texts.len() ==> may_read(read, texts[i], #[trigger] readings[i])
}

/// Whether a rotation may be read from an attribute of this name.
pub fn is_rotate(name: &str) -> (supported: bool)
    ensures
        supported == (name@ == rotate_name()),
{
    proof {
        reveal_strlit("rotate");
        assert("rotate"@ =~= rotate_name());
    }
    same_text(name, "rotate")
}

/// The attribute at `at` is not supported, and all before it are.
pub open spec fn is_first_unsupported(attributes: Seq<AttributeView>, at: int) -> bool {
    &&& 0 <= at < attributes.len()
    &&& !is_supported(attributes[at])
    &&& all_supported(attributes.take(at))
}

/// The place of the first attribute that no rotation can be read from.
///
/// A node shows a rotation only its `rotate` attribute, so any other name
/// means that the caller's masking is broken. [`rotation_texts`] and
/// [`Transform::update`] ask that there be none.
pub fn first_unsupported(attributes: &Vec<Attribute>) -> (place: Option<usize>)
    ensures
        match place {
            Some(at) => is_first_unsupported(views(attributes@), at as int),
            None => all_supported(views(attributes@)),
        },
{
    let mut at: usize = 0;
    while at < attributes.len()
        invariant
            at <= attributes.len(),
            all_supported(views(attributes@).take(at as int)),
        decreases attributes.len() - at,
    {
        if !is_rotate(attributes[at].name.as_str()) {
            return Some(at);
        }
        proof {
            let seen = views(attributes@).take(at + 1);
            assert forall|i: int| 0 <= i < seen.len() implies is_supported(#[trigger] seen[i]) by {
                if i < at {
                    assert(seen[i] == views(attributes@).take(at as int)[i]);
                }
            }
        }
        at += 1;
    }
    assert(views(attributes@).take(at as int) =~= views(attributes@));
    None
}

/// Takes the unit off a text.
///
/// Gives what stands before the final `deg`, which may be empty or anything
/// else that is no number, and nothing for a text that does not end so.
pub fn numeric_text(text: &str) -> (part: Option<&str>)
    ensures
        part is Some <==> has_unit(text@),
        match part {
            Some(number) => numeric_part(text@) == Some(number@),
            None => numeric_part(text@) is None,
        },
{
    proof {
        reveal_strlit("deg");
        assert("deg"@ =~= unit());
    }
    if ends_with(text, "deg") {
        let length: usize = text.unicode_len();
        Some(text.substring_char(0, length - 3))
    } else {
        None
    }
}

/// The texts that are to be read as numbers, in the order of the attributes.
///
/// An attribute whose value is no text, or a text without the unit, gives
/// none.
pub fn rotation_texts(attributes: &Vec<Attribute>) -> (texts: Vec<&str>)
    requires
        all_supported(views(attributes@)),
    ensures
        texts@.map_values(|text: &str| text@) == candidates(views(attributes@)),
{
    let mut texts: Vec<&str> = Vec::new();
    let mut at: usize = 0;
    while at < attributes.len()
        invariant
            at <= attributes.len(),
            texts@.map_values(|text: &str| text@) == candidates(
                views(attributes@).take(at as int),
            ),
        decreases attributes.len() - at,
    {
        let ghost before = texts@.map_values(|text: &str| text@);
        let found: Option<&str> = match &attributes[at].text {
            Some(text) => numeric_text(text.as_str()),
            None => None,
        };
        proof {
            views(attributes@).lemma_filter_map_take_succ(
                |attribute: AttributeView| candidate(attribute),
                at as int,
            );
        }
        if let Some(number) = found {
            texts.push(number);
            assert(texts@.map_values(|text: &str| text@) =~= before + seq![number@]);
        }
        at += 1;
    }
    assert(views(attributes@).take(at as int) =~= views(attributes@));
    texts
}

/// Whether two rotations are the same.
pub fn rotations_match(left: Option<Degrees>, right: Option<Degrees>) -> (same: bool)
    ensures
        same == same_rotation(left, right),
{
    match (left, right) {
        (None, None) => true,
        (Some(a), Some(b)) => a == b,
        _ => false,
    }
}

/// The rotation of a node: unset, or an angle.
#[derive(Clone, Copy, Debug)]
pub struct Transform {
    pub rotate_degs: Option<Degrees>,
}

impl Transform {
    /// The transform after the readings have been taken in.
    pub open spec fn updated(self, readings: Seq<Option<Degrees>>) -> Transform {
        Transform { rotate_degs: last_reading(readings) }
    }

    /// Taking the readings in changes the rotation.
    pub open spec fn changed_by(self, readings: Seq<Option<Degrees>>) -> bool {
        !same_rotation(last_reading(readings), self.rotate_degs)
    }

    /// Resolves the rotation from the attributes that the node shows.
    ///
    /// `read` is asked for the number in each text that ends with the unit,
    /// in the order of the attributes and with the unit taken off, and for
    /// nothing else: those are the texts it has to accept. What it answers
    /// is taken in as [`Transform::apply`] does.
    pub fn update<F: Fn(&str) -> Option<Degrees>>(
        &mut self,
        attributes: &Vec<Attribute>,
        read: F,
    ) -> (changed: bool)
        requires
            all_supported(views(attributes@)),
            forall|text: &str|
                candidates(views(attributes@)).contains(text@) ==> #[trigger] call_requires(
                    read,
                    (text,),
                ),
        ensures
            exists|readings: Seq<Option<Degrees>>|
                #![trigger old(self).updated(readings)]
                read_from(read, candidates(views(attributes@)), readings)
                    && *final(self) == old(self).updated(readings)
                    && changed == old(self).changed_by(readings),
    {
        let texts: Vec<&str> = rotation_texts(attributes);
        let mut readings: Vec<Option<Degrees>> = Vec::new();
        let mut at: usize = 0;
        while at < texts.len()
            invariant
                at <= texts.len(),
                texts@.map_values(|text: &str| text@) == candidates(views(attributes@)),
                forall|text: &str|
                    candidates(views(attributes@)).contains(text@) ==> #[trigger] call_requires(
                        read,
                        (text,),
                    ),
                readings.len() == at,
                forall|i: int|
                    0 <= i < at ==> #[trigger] call_ensures(read, (texts[i],), readings[i]),
            decreases texts.len() - at,
        {
            assert(texts@.map_values(|text: &str| text@)[at as int] == texts[at as int]@);
            let reading: Option<Degrees> = read(texts[at]);
            readings.push(reading);
            at += 1;
        }
        proof {
            let wanted = candidates(views(attributes@));
            assert forall|i: int| 0 <= i < wanted.len() implies may_read(
                read,
                wanted[i],
                #[trigger] readings@[i],
            ) by {
                assert(texts@.map_values(|text: &str| text@)[i] == texts[i]@);
                assert(call_ensures(read, (texts[i],), readings@[i]));
            }
            assert(read_from(read, wanted, readings@));
        }
        self.apply(&readings)
    }

    /// Takes in what the node's rotation texts were read as, in their order.
    ///
    /// The last reading that gave a number becomes the rotation; where none
    /// did, or there was no text at all, the rotation is unset. The result
    /// tells whether the rotation is now another than before, which is what
    /// whoever depends on it needs to know.
    pub fn apply(&mut self, readings: &Vec<Option<Degrees>>) -> (changed: bool)
        ensures
            *final(self) == old(self).updated(readings@),
            changed == old(self).changed_by(readings@),
    {
        let mut rotate_degs: Option<Degrees> = None;
        let mut at: usize = 0;
        while at < readings.len()
            invariant
                at <= readings.len(),
                rotate_degs == last_reading(readings@.take(at as int)),
            decreases readings.len() - at,
        {
            if let Some(degs) = readings[at] {
                rotate_degs = Some(degs);
            }
            assert(readings@.take(at + 1).drop_last() =~= readings@.take(at as int));
            at += 1;
        }
        assert(readings@.take(at as int) =~= readings@);
        let changed: bool = !rotations_match(rotate_degs, self.rotate_degs);
        *self = Transform { rotate_degs };
        changed
    }
}

impl Default for Transform {
    /// The transform of a node that is not rotated.
    fn default() -> (transform: Transform)
        ensures
            transform.rotate_degs is None,
    {
        Transform { rotate_degs: None }
    }
}

impl PartialEq for Transform {
    /// Equality of the rotations as numbers.
    fn eq(&self, other: &Transform) -> (equal: bool) {
        rotations_match(self.rotate_degs, other.rotate_degs)
    }
}

impl vstd::std_specs::cmp::PartialEqSpecImpl for Transform {
    open spec fn obeys_eq_spec() -> bool {
        true
    }

    open spec fn eq_spec(&self, other: &Transform) -> bool {
        same_rotation(self.rotate_degs, other.rotate_degs)
    }
}

/// The unit comes off whole: a text made of anything at all and the unit has
/// the unit, and what stands before it is that anything.
pub proof fn unit_comes_off(number: Seq<char>)
    ensures
        has_unit(number + unit()),
        numeric_part(number + unit()) == Some(number),
{
    let text = number + unit();
    assert(text.subrange(text.len() - unit().len(), text.len() as int) =~= unit());
    assert(text.subrange(0, text.len() - unit().len()) =~= number);
}

/// A node whose one attribute is a `rotate` text resolves to what the
/// reading makes of the part before the unit, and to nothing where the text
/// does not end with the unit, whatever the reading would make of it.
pub proof fn lone_text_resolves_by_its_numeric_part(
    text: Seq<char>,
    reading: spec_fn(Seq<char>) -> Option<Degrees>,
)
    ensures
        all_supported(seq![rotate_text(text)]),
        resolved(seq![rotate_text(text)], reading) == match numeric_part(text) {
            Some(number) => reading(number),
            None => None,
        },
{
    let attributes = seq![rotate_text(text)];
    let pick = |attribute: AttributeView| candidate(attribute);
    Seq::lemma_filter_map_singleton(rotate_text(text), pick);
    match numeric_part(text) {
        Some(number) => {
            assert(candidates(attributes) =~= seq![number]);
            let readings = readings_of(attributes, reading);
            assert(readings =~= seq![reading(number)]);
            assert(readings.drop_last() =~= Seq::empty());
            assert(last_reading(readings.drop_last()) is None);
        },
        None => {
            assert(candidates(attributes) =~= Seq::empty());
            assert(readings_of(attributes, reading) =~= Seq::empty());
        },
    }
}

/// Resolving the same attributes a second time changes nothing: the second
/// update reports no change, whatever the transform held before the first.
///
/// This needs the resolved rotation to be unset or a number. An angle that
/// is not a number differs from every angle, itself included.
pub proof fn resolving_again_changes_nothing(
    before: Transform,
    attributes: Seq<AttributeView>,
    reading: spec_fn(Seq<char>) -> Option<Degrees>,
)
    requires
        is_comparable(resolved(attributes, reading)),
    ensures
        !before.updated(readings_of(attributes, reading)).changed_by(
            readings_of(attributes, reading),
        ),
{
}

} // verus!

//! Signed player skins and the rule that extracts one from a profile's
//! property list.
//!
//! A profile lookup returns a list of named properties; the skin is the
//! first property named `textures`, and both its value and its
//! signature must be valid standard base64. Fetching and caching the
//! profile is I/O and lives outside this library.

use vstd::prelude::*;

use base64::Engine;

verus! {

/// A signed player skin.
#[derive(Debug, Clone, PartialEq, Eq)]
pub struct PlayerSkin {
    /// The textures of the player skin, as a base64 string.
    pub textures: String,
    /// The signature of the player skin, as a base64 string.
    pub signature: String,
}

impl PlayerSkin {
    /// Creates a new skin from its two base64 strings.
    pub fn new(textures: String, signature: String) -> (r: Self)
        ensures
            r.textures@ == textures@,
            r.signature@ == signature@,
    {
        Self { textures, signature }
    }
}

/// One named property of a player profile.
#[derive(Debug, Clone, PartialEq, Eq)]
pub struct SkinProperty {
    /// The property's name.
    pub name: String,
    /// The property's value.
    pub value: String,
    /// The signature over the value.
    pub signature: String,
}

/// The model of one profile property.
pub ghost struct SkinPropertyView {
    /// The property's name.
    pub name: Seq<char>,
    /// The property's value.
    pub value: Seq<char>,
    /// The signature over the value.
    pub signature: Seq<char>,
}

impl View for SkinProperty {
    type V = SkinPropertyView;

    open spec fn view(&self) -> SkinPropertyView {
        SkinPropertyView { name: self.name@, value: self.value@, signature: self.signature@ }
    }
}

/// What a string decodes to under standard base64, if it is valid.
pub uninterp spec fn base64_decoded(s: Seq<char>) -> Option<Seq<u8>>;

/// Relies on the standard-alphabet base64 engine's `decode`: the result
/// is a function of the characters alone.
#[verifier::external_body]
fn base64_decode(s: &str) -> (r: Option<Vec<u8>>)
    ensures
        r is Some <==> base64_decoded(s@) is Some,
        r matches Some(v) ==> base64_decoded(s@) == Some(v@),
{
    base64::engine::general_purpose::STANDARD.decode(s).ok()
}

/// Why no skin could be built from a property list.
#[derive(Copy, Clone, Debug, PartialEq, Eq, Structural)]
pub enum SkinError {
    /// The textures property's value is not valid base64.
    InvalidTextureValue,
    /// The textures property's signature is not valid base64.
    InvalidSignature,
}

/// The model of a skin extraction result.
pub open spec fn skin_result_view(r: Result<Option<PlayerSkin>, SkinError>) -> Result<
    Option<(Seq<char>, Seq<char>)>,
    SkinError,
> {
    match r {
        Ok(None) => Ok(None),
        Ok(Some(skin)) => Ok(Some((skin.textures@, skin.signature@))),
        Err(e) => Err(e),
    }
}

/// The skin a property list yields: the first property named `textures`
/// decides, its value and signature must both decode as base64, and a
/// list with no such property yields no skin.
pub open spec fn skin_of_properties(props: Seq<SkinPropertyView>) -> Result<
    Option<(Seq<char>, Seq<char>)>,
    SkinError,
>
    decreases props.len(),
{
    if props.len() == 0 {
        Ok(None)
    } else if props.first().name == "textures"@ {
        if base64_decoded(props.first().value) is None {
            Err(SkinError::InvalidTextureValue)
        } else if base64_decoded(props.first().signature) is None {
            Err(SkinError::InvalidSignature)
        } else {
            Ok(Some((props.first().value, props.first().signature)))
        }
    } else {
        skin_of_properties(props.drop_first())
    }
}

/// The models of a vector of properties.
pub open spec fn property_views(props: Seq<SkinProperty>) -> Seq<SkinPropertyView> {
    props.map_values(|p: SkinProperty| p@)
}

/// Extracts the signed skin from a profile's property list: the first
/// property named `textures` decides, and both of its fields must be
/// valid base64.
pub fn skin_from_properties(props: &Vec<SkinProperty>) -> (r: Result<
    Option<PlayerSkin>,
    SkinError,
>)
    ensures
        skin_result_view(r) == skin_of_properties(property_views(props@)),
{
    let ghost all = property_views(props@);
    let needle: String = "textures".to_owned();
    proof {
        assert(all.skip(0) =~= all);
    }
    let mut i: usize = 0;
    while i < props.len()
        invariant
            i <= props@.len(),
            all == property_views(props@),
            needle@ == "textures"@,
            skin_of_properties(all) == skin_of_properties(all.skip(i as int)),
        decreases props@.len() - i,
    {
        let property = &props[i];
        proof {
            let tail = all.skip(i as int);
            assert(tail.len() > 0);
            assert(tail.first() == all[i as int]);
            assert(all[i as int] == props@[i as int]@);
            assert(tail.drop_first() =~= all.skip(i + 1));
        }
        if property.name == needle {
            assert(all.skip(i as int).first().name == "textures"@);
            let textures_ok = base64_decode(property.value.as_str());
            if textures_ok.is_none() {
                return Err(SkinError::InvalidTextureValue);
            }
            let signature_ok = base64_decode(property.signature.as_str());
            if signature_ok.is_none() {
                return Err(SkinError::InvalidSignature);
            }
            return Ok(
                Some(
                    PlayerSkin {
                        textures: property.value.clone(),
                        signature: property.signature.clone(),
                    },
                ),
            );
        }
        i = i + 1;
    }
    proof {
        assert(all.skip(all.len() as int) =~= Seq::<SkinPropertyView>::empty());
    }
    Ok(None)
}

} // verus!

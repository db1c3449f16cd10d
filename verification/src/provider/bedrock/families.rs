//! Model family detection for AWS Bedrock model ids.
//!
//! Bedrock model ids have the form `<vendor>.<model-name>-<version>`; the
//! vendor decides the family.
use vstd::prelude::*;
use vstd::string::StringExecFns;

use crate::text::{before_char, concat3, find_char, str_eq, text_before_char};

verus! {

/// The model families that AWS Bedrock hosts.
#[derive(Debug, Clone, Copy, PartialEq, Eq, Structural)]
pub enum ModelFamily {
    /// Anthropic models (`anthropic.*`).
    Anthropic,
    /// Amazon Titan models (`amazon.titan-*`).
    Amazon,
    /// Meta Llama models (`meta.llama*`).
    Meta,
    /// Mistral and Mixtral models (`mistral.*`).
    Mistral,
    /// Cohere Command and Embed models (`cohere.*`).
    Cohere,
    /// AI21 Labs Jurassic and Jamba models (`ai21.*`).
    AI21,
    /// Stability AI image models (`stability.*`).
    Stability,
}

/// Why a model id names no family.
#[derive(Debug)]
pub enum FamilyError {
    /// The id has no `.` and so no vendor prefix.
    InvalidFormat { model_id: String },
    /// The vendor before the first `.` is none of the known ones.
    UnknownVendor { vendor: String },
}

/// The vendor prefix of a family.
pub open spec fn spec_vendor_prefix(f: ModelFamily) -> Seq<char> {
    match f {
        ModelFamily::Anthropic => "anthropic"@,
        ModelFamily::Amazon => "amazon"@,
        ModelFamily::Meta => "meta"@,
        ModelFamily::Mistral => "mistral"@,
        ModelFamily::Cohere => "cohere"@,
        ModelFamily::AI21 => "ai21"@,
        ModelFamily::Stability => "stability"@,
    }
}

/// The family whose vendor prefix is `vendor`.
pub open spec fn family_for_vendor(vendor: Seq<char>) -> Option<ModelFamily> {
    if vendor == "anthropic"@ {
        Some(ModelFamily::Anthropic)
    } else if vendor == "amazon"@ {
        Some(ModelFamily::Amazon)
    } else if vendor == "meta"@ {
        Some(ModelFamily::Meta)
    } else if vendor == "mistral"@ {
        Some(ModelFamily::Mistral)
    } else if vendor == "cohere"@ {
        Some(ModelFamily::Cohere)
    } else if vendor == "ai21"@ {
        Some(ModelFamily::AI21)
    } else if vendor == "stability"@ {
        Some(ModelFamily::Stability)
    } else {
        None
    }
}

/// The vendor part of a model id: the text before its first `.`.
pub open spec fn vendor_of(model_id: Seq<char>) -> Seq<char> {
    before_char(model_id, '.')
}

/// The message of an error, as the library reports it.
pub open spec fn family_error_text(e: FamilyError) -> Seq<char> {
    match e {
        FamilyError::InvalidFormat { model_id } => "Invalid model ID format: '"@ + model_id@
            + "' (missing vendor prefix)"@,
        FamilyError::UnknownVendor { vendor } => "Unknown model family for vendor: '"@ + vendor@
            + "'. Supported vendors: anthropic, amazon, meta, mistral, cohere, ai21, stability"@,
    }
}

impl FamilyError {
    /// The error's message.
    pub fn to_string(&self) -> (r: String)
        ensures
            r@ == family_error_text(*self),
    {
        match self {
            FamilyError::InvalidFormat { model_id } => concat3(
                "Invalid model ID format: '",
                model_id.as_str(),
                "' (missing vendor prefix)",
            ),
            FamilyError::UnknownVendor { vendor } => concat3(
                "Unknown model family for vendor: '",
                vendor.as_str(),
                "'. Supported vendors: anthropic, amazon, meta, mistral, cohere, ai21, stability",
            ),
        }
    }
}

impl ModelFamily {
    /// The family of a Bedrock model id.
    ///
    /// An id without `.` is `InvalidFormat`; otherwise the text before the
    /// first `.` must be one of the seven vendor prefixes, else the result is
    /// `UnknownVendor` with that text.
    pub fn from_model_id(model_id: &str) -> (r: Result<ModelFamily, FamilyError>)
        ensures
            !model_id@.contains('.') ==> (r matches Err(FamilyError::InvalidFormat { model_id: m })
                && m@ == model_id@),
            model_id@.contains('.') ==> match family_for_vendor(vendor_of(model_id@)) {
                Some(f) => r == Ok::<ModelFamily, FamilyError>(f),
                None => (r matches Err(FamilyError::UnknownVendor { vendor })
                    && vendor@ == vendor_of(model_id@)),
            },
    {
        proof {
            crate::text::lemma_char_index_bounds(model_id@, '.');
        }
        if find_char(model_id, '.').is_none() {
            return Err(FamilyError::InvalidFormat { model_id: String::from_str(model_id) });
        }
        let vendor = text_before_char(model_id, '.');
        let v = vendor.as_str();
        proof {
            reveal_strlit("anthropic");
            reveal_strlit("amazon");
            reveal_strlit("meta");
            reveal_strlit("mistral");
            reveal_strlit("cohere");
            reveal_strlit("ai21");
            reveal_strlit("stability");
        }
        if str_eq(v, "anthropic") {
            Ok(ModelFamily::Anthropic)
        } else if str_eq(v, "amazon") {
            Ok(ModelFamily::Amazon)
        } else if str_eq(v, "meta") {
            Ok(ModelFamily::Meta)
        } else if str_eq(v, "mistral") {
            Ok(ModelFamily::Mistral)
        } else if str_eq(v, "cohere") {
            Ok(ModelFamily::Cohere)
        } else if str_eq(v, "ai21") {
            Ok(ModelFamily::AI21)
        } else if str_eq(v, "stability") {
            Ok(ModelFamily::Stability)
        } else {
            Err(FamilyError::UnknownVendor { vendor })
        }
    }

    /// The vendor prefix of this family.
    pub fn vendor_prefix(&self) -> (r: &'static str)
        ensures
            r@ == spec_vendor_prefix(*self),
    {
        match self {
            ModelFamily::Anthropic => "anthropic",
            ModelFamily::Amazon => "amazon",
            ModelFamily::Meta => "meta",
            ModelFamily::Mistral => "mistral",
            ModelFamily::Cohere => "cohere",
            ModelFamily::AI21 => "ai21",
            ModelFamily::Stability => "stability",
        }
    }

    /// Whether Bedrock streams responses for this family: every family but
    /// AI21 and Stability.
    pub fn supports_streaming(&self) -> (r: bool)
        ensures
            r == !(*self == ModelFamily::AI21 || *self == ModelFamily::Stability),
    {
        match self {
            ModelFamily::Anthropic => true,
            ModelFamily::Amazon => true,
            ModelFamily::Meta => true,
            ModelFamily::Mistral => true,
            ModelFamily::Cohere => true,
            ModelFamily::AI21 => false,
            ModelFamily::Stability => false,
        }
    }

    /// A human-readable description of this family.
    pub fn description(&self) -> (r: &'static str)
        ensures
            r@ == match *self {
                ModelFamily::Anthropic => "Anthropic models"@,
                ModelFamily::Amazon => "Amazon Titan models"@,
                ModelFamily::Meta => "Meta Llama models"@,
                ModelFamily::Mistral => "Mistral AI models"@,
                ModelFamily::Cohere => "Cohere Command and Embed models"@,
                ModelFamily::AI21 => "AI21 Labs Jurassic and Jamba models"@,
                ModelFamily::Stability => "Stability AI Stable Diffusion models"@,
            },
    {
        match self {
            ModelFamily::Anthropic => "Anthropic models",
            ModelFamily::Amazon => "Amazon Titan models",
            ModelFamily::Meta => "Meta Llama models",
            ModelFamily::Mistral => "Mistral AI models",
            ModelFamily::Cohere => "Cohere Command and Embed models",
            ModelFamily::AI21 => "AI21 Labs Jurassic and Jamba models",
            ModelFamily::Stability => "Stability AI Stable Diffusion models",
        }
    }

    /// The family's display form: its vendor prefix.
    pub fn to_string(&self) -> (r: String)
        ensures
            r@ == spec_vendor_prefix(*self),
    {
        String::from_str(self.vendor_prefix())
    }
}

/// The vendor prefix of every family reads back as that family: a model id
/// made of the prefix, `.` and any model name is of that family.
pub proof fn law_vendor_prefix_round_trip(f: ModelFamily, name: Seq<char>)
    ensures
        family_for_vendor(spec_vendor_prefix(f)) == Some(f),
        vendor_of(spec_vendor_prefix(f) + "."@ + name) == spec_vendor_prefix(f),
        family_for_vendor(vendor_of(spec_vendor_prefix(f) + "."@ + name)) == Some(f),
{
    reveal_strlit("anthropic");
    reveal_strlit("amazon");
    reveal_strlit("meta");
    reveal_strlit("mistral");
    reveal_strlit("cohere");
    reveal_strlit("ai21");
    reveal_strlit("stability");
    reveal_strlit(".");
    let p = spec_vendor_prefix(f);
    let s = p + "."@ + name;
    assert forall|j: int| 0 <= j < p.len() implies s[j] != '.' by {
        assert(s[j] == p[j]);
    }
    assert(s[p.len() as int] == '.');
    crate::text::lemma_char_index(s, '.', p.len() as int);
    assert(s.take(p.len() as int) =~= p);
}

} // verus!

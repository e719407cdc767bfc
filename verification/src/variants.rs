//! Conversion between the written variants of Chinese.
//!
//! The speech engines write Simplified Chinese. For the language `zh-Hans`
//! a transcript is normalized to Simplified Chinese, for `zh-Hant` it is
//! turned into Traditional Chinese as written in Taiwan. The dictionaries
//! are those of the `ferrous_opencc` crate: contracts speak of their results
//! by name.

use vstd::prelude::*;
use vstd::string::StringExecFns;
use crate::strings::str_eq;

verus! {

/// The variant that a transcript is converted to.
#[derive(Clone, Copy, Debug, PartialEq, Eq, Structural)]
pub enum ChineseVariant {
    /// Simplified Chinese.
    Simplified,
    /// Traditional Chinese as written in Taiwan.
    Traditional,
}

/// `text` converted to Traditional Chinese if `traditional`, else to
/// Simplified Chinese, as the built-in dictionaries of `ferrous_opencc` do
/// it; none if the dictionaries cannot be loaded.
pub uninterp spec fn opencc_converted(traditional: bool, text: Seq<char>) -> Option<Seq<char>>;

/// Builds the converter with `OpenCC::from_config`, from the built-in
/// configuration `Tw2sp` for Simplified and `S2twp` for Traditional Chinese,
/// and converts `text` with `OpenCC::convert`. The answer is none if the
/// converter cannot be built. Nothing is claimed of the result but that it
/// depends on the variant and the text alone.
#[verifier::external_body]
fn opencc_convert(variant: ChineseVariant, text: &str) -> (converted: Option<String>)
    ensures
        match converted {
            Some(out) => opencc_converted(variant is Traditional, text@) == Some(out@),
            None => opencc_converted(variant is Traditional, text@) is None,
        },
{
    let config = match variant {
        ChineseVariant::Simplified => ferrous_opencc::config::BuiltinConfig::Tw2sp,
        ChineseVariant::Traditional => ferrous_opencc::config::BuiltinConfig::S2twp,
    };
    match ferrous_opencc::OpenCC::from_config(config) {
        Ok(converter) => Some(converter.convert(text)),
        Err(_) => None,
    }
}

/// The variant that transcripts in `language` are converted to, if any.
pub open spec fn variant_of(language: Seq<char>) -> Option<ChineseVariant> {
    if language == "zh-Hans"@ {
        Some(ChineseVariant::Simplified)
    } else if language == "zh-Hant"@ {
        Some(ChineseVariant::Traditional)
    } else {
        None
    }
}

/// `text` as it is written for `language`: converted for the two Chinese
/// variants where the dictionaries can be loaded, unchanged otherwise.
pub open spec fn in_variant(text: Seq<char>, language: Seq<char>) -> Seq<char> {
    match variant_of(language) {
        Some(variant) => match opencc_converted(variant is Traditional, text) {
            Some(converted) => converted,
            None => text,
        },
        None => text,
    }
}

/// Converts `text` to the variant of Chinese that `language` asks for:
/// Simplified for `zh-Hans`, Traditional for `zh-Hant`. For any other
/// language, and where the dictionaries cannot be loaded, the text is
/// returned as it is.
pub fn convert_chinese_variant(text: &str, language: &str) -> (out: String)
    ensures
        out@ == in_variant(text@, language@),
{
    let variant = if str_eq(language, "zh-Hans") {
        ChineseVariant::Simplified
    } else if str_eq(language, "zh-Hant") {
        ChineseVariant::Traditional
    } else {
        return String::from_str(text);
    };
    match opencc_convert(variant, text) {
        Some(converted) => converted,
        None => String::from_str(text),
    }
}

} // verus!

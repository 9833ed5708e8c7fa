//! Which text converter a conversion mode calls for, and how it is loaded.
use crate::api::TextConversionMode;
use ferrous_opencc::config::BuiltinConfig;
use ferrous_opencc::error::OpenCCError;
use ferrous_opencc::OpenCC;
use vstd::prelude::*;
use vstd::string::*;

verus! {

/// The reason why a converter of `ferrous_opencc` could not be loaded, carried as an opaque
/// value.
#[verifier::external_type_specification]
#[verifier::external_body]
pub struct ExOpenCCError(ferrous_opencc::error::OpenCCError);

/// The built-in configurations that the conversion modes use.
#[derive(Debug, Clone, Copy, PartialEq, Eq, Structural)]
pub enum ConverterConfig {
    T2s,
    S2t,
    S2tw,
    Tw2s,
    S2hk,
    Hk2s,
}

/// The configuration that a conversion mode calls for; none where nothing is converted.
pub open spec fn config_of_mode(mode: TextConversionMode) -> Option<ConverterConfig> {
    match mode {
        TextConversionMode::Off => None,
        TextConversionMode::TraditionalToSimplified => Some(ConverterConfig::T2s),
        TextConversionMode::SimplifiedToTraditional => Some(ConverterConfig::S2t),
        TextConversionMode::SimplifiedToTaiwan => Some(ConverterConfig::S2tw),
        TextConversionMode::TaiwanToSimplified => Some(ConverterConfig::Tw2s),
        TextConversionMode::SimplifiedToHongKong => Some(ConverterConfig::S2hk),
        TextConversionMode::HongKongToSimplified => Some(ConverterConfig::Hk2s),
    }
}

/// Finds the configuration that a conversion mode calls for.
pub fn converter_config(mode: TextConversionMode) -> (config: Option<ConverterConfig>)
    ensures
        config == config_of_mode(mode),
{
    match mode {
        TextConversionMode::Off => None,
        TextConversionMode::TraditionalToSimplified => Some(ConverterConfig::T2s),
        TextConversionMode::SimplifiedToTraditional => Some(ConverterConfig::S2t),
        TextConversionMode::SimplifiedToTaiwan => Some(ConverterConfig::S2tw),
        TextConversionMode::TaiwanToSimplified => Some(ConverterConfig::Tw2s),
        TextConversionMode::SimplifiedToHongKong => Some(ConverterConfig::S2hk),
        TextConversionMode::HongKongToSimplified => Some(ConverterConfig::Hk2s),
    }
}

/// The name of a configuration.
pub open spec fn name_of_config(config: ConverterConfig) -> Seq<char> {
    match config {
        ConverterConfig::T2s => "T2s"@,
        ConverterConfig::S2t => "S2t"@,
        ConverterConfig::S2tw => "S2tw"@,
        ConverterConfig::Tw2s => "Tw2s"@,
        ConverterConfig::S2hk => "S2hk"@,
        ConverterConfig::Hk2s => "Hk2s"@,
    }
}

/// Names a configuration.
pub fn config_name(config: ConverterConfig) -> (name: &'static str)
    ensures
        name@ == name_of_config(config),
{
    match config {
        ConverterConfig::T2s => "T2s",
        ConverterConfig::S2t => "S2t",
        ConverterConfig::S2tw => "S2tw",
        ConverterConfig::Tw2s => "Tw2s",
        ConverterConfig::S2hk => "S2hk",
        ConverterConfig::Hk2s => "Hk2s",
    }
}

/// The converter that a configuration describes.
pub uninterp spec fn opencc_of(config: ConverterConfig) -> OpenCC;

/// `OpenCC::from_config` of `ferrous_opencc`: configuration and dictionaries are compiled into
/// that crate, so a converter that is loaded is the one that the configuration describes. Whether
/// one is loaded is left open: a dictionary is refused where its copy in memory is not aligned.
#[verifier::external_body]
pub(crate) fn load_converter(config: ConverterConfig) -> (loaded: Result<OpenCC, OpenCCError>)
    ensures
        loaded matches Ok(converter) ==> converter == opencc_of(config),
{
    OpenCC::from_config(
        match config {
            ConverterConfig::T2s => BuiltinConfig::T2s,
            ConverterConfig::S2t => BuiltinConfig::S2t,
            ConverterConfig::S2tw => BuiltinConfig::S2tw,
            ConverterConfig::Tw2s => BuiltinConfig::Tw2s,
            ConverterConfig::S2hk => BuiltinConfig::S2hk,
            ConverterConfig::Hk2s => BuiltinConfig::Hk2s,
        },
    )
}

/// The `Display` text of an `OpenCCError`. Nothing is claimed of it: it may quote an address in
/// memory or a message of the operating system.
#[verifier::external_body]
pub(crate) fn load_error_text(error: &OpenCCError) -> (text: String) {
    error.to_string()
}

/// Whether this can be what loading a converter for a mode has come to: the converter that the
/// mode calls for, or none where it could not be loaded or the mode calls for none.
pub open spec fn can_load(mode: TextConversionMode, loaded: Option<OpenCC>) -> bool {
    match loaded {
        Some(converter) => config_of_mode(mode) matches Some(config) && converter == opencc_of(
            config,
        ),
        None => true,
    }
}

/// The message about a configuration that could not be loaded.
pub open spec fn load_failure(config: ConverterConfig, reason: Seq<char>) -> Seq<char> {
    "Failed to load OpenCC config '"@ + name_of_config(config) + "': "@ + reason
}

/// Writes the message about a configuration that could not be loaded.
pub fn load_failure_message(config: ConverterConfig, reason: &str) -> (message: String)
    ensures
        message@ == load_failure(config, reason@),
{
    let mut message: String = "Failed to load OpenCC config '".to_owned();
    message.append(config_name(config));
    message.append("': ");
    message.append(reason);
    message
}

/// Two modes that call for the same configuration are the same mode.
pub proof fn law_modes_use_distinct_configs(a: TextConversionMode, b: TextConversionMode)
    requires
        config_of_mode(a) == config_of_mode(b),
    ensures
        a == b,
{
}

/// Every text conversion mode converts in the direction that its name says, and only the mode that
/// is off converts nothing.
pub proof fn law_modes_convert_as_named()
    ensures
        config_of_mode(TextConversionMode::Off) is None,
        config_of_mode(TextConversionMode::TraditionalToSimplified) matches Some(c)
            && name_of_config(c) == "T2s"@,
        config_of_mode(TextConversionMode::SimplifiedToTraditional) matches Some(c)
            && name_of_config(c) == "S2t"@,
        config_of_mode(TextConversionMode::SimplifiedToTaiwan) matches Some(c)
            && name_of_config(c) == "S2tw"@,
        config_of_mode(TextConversionMode::TaiwanToSimplified) matches Some(c)
            && name_of_config(c) == "Tw2s"@,
        config_of_mode(TextConversionMode::SimplifiedToHongKong) matches Some(c)
            && name_of_config(c) == "S2hk"@,
        config_of_mode(TextConversionMode::HongKongToSimplified) matches Some(c)
            && name_of_config(c) == "Hk2s"@,
{
}

/// A configuration is called what its variant is called.
pub proof fn law_configs_keep_their_names()
    ensures
        name_of_config(ConverterConfig::T2s) == "T2s"@,
        name_of_config(ConverterConfig::S2t) == "S2t"@,
        name_of_config(ConverterConfig::S2tw) == "S2tw"@,
        name_of_config(ConverterConfig::Tw2s) == "Tw2s"@,
        name_of_config(ConverterConfig::S2hk) == "S2hk"@,
        name_of_config(ConverterConfig::Hk2s) == "Hk2s"@,
{
}

/// A converter that was loaded for a mode is the one of that mode's configuration, and none is
/// loaded while conversion is off.
pub proof fn law_loaded_converter_fits_mode(mode: TextConversionMode, converter: OpenCC)
    requires
        can_load(mode, Some(converter)),
    ensures
        mode != TextConversionMode::Off,
        mode == TextConversionMode::TraditionalToSimplified ==> converter == opencc_of(
            ConverterConfig::T2s,
        ),
        mode == TextConversionMode::SimplifiedToTraditional ==> converter == opencc_of(
            ConverterConfig::S2t,
        ),
        mode == TextConversionMode::SimplifiedToTaiwan ==> converter == opencc_of(
            ConverterConfig::S2tw,
        ),
        mode == TextConversionMode::TaiwanToSimplified ==> converter == opencc_of(
            ConverterConfig::Tw2s,
        ),
        mode == TextConversionMode::SimplifiedToHongKong ==> converter == opencc_of(
            ConverterConfig::S2hk,
        ),
        mode == TextConversionMode::HongKongToSimplified ==> converter == opencc_of(
            ConverterConfig::Hk2s,
        ),
{
}

/// The message about a failure names the configuration before it gives the reason.
pub proof fn law_failure_names_config_and_reason(config: ConverterConfig, reason: Seq<char>)
    ensures
        ({
            let message = load_failure(config, reason);
            let name = name_of_config(config);
            &&& crate::text::occurs_at(message, "Failed to load OpenCC config '"@, 0)
            &&& crate::text::occurs_at(message, name, 30)
            &&& crate::text::occurs_at(message, "': "@, 30 + name.len() as int)
            &&& crate::text::occurs_at(message, reason, 33 + name.len() as int)
            &&& message.len() == 33 + name.len() + reason.len()
        }),
{
    reveal_strlit("Failed to load OpenCC config '");
    reveal_strlit("': ");
    let message = load_failure(config, reason);
    let name = name_of_config(config);
    let n = name.len() as int;
    assert(message.subrange(0, 30) =~= "Failed to load OpenCC config '"@);
    assert(message.subrange(30, 30 + n) =~= name);
    assert(message.subrange(30 + n, 33 + n) =~= "': "@);
    assert(message.subrange(33 + n, 33 + n + reason.len()) =~= reason);
}

} // verus!

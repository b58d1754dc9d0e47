//! The fixed allow-lists of image resolutions and markets, and the fallback
//! to a default for a value outside them.
use vstd::prelude::*;
use crate::text::{contains_text, text_in};

verus! {

/// Resolutions the image service publishes.
pub open spec fn resolutions() -> Seq<&'static str> {
    seq!["auto", "UHD", "1920x1200", "1920x1080", "1366x768", "1280x720", "1024x768", "800x600"]
}

/// Markets (region and language codes) the image service knows.
pub open spec fn markets() -> Seq<&'static str> {
    seq![
        "auto", "ar-XA", "da-DK", "de-AT", "de-CH", "de-DE", "en-AU", "en-CA", "en-GB", "en-ID",
        "en-IE", "en-IN", "en-MY", "en-NZ", "en-PH", "en-SG", "en-US", "en-WW", "en-XA", "en-ZA",
        "es-AR", "es-CL", "es-ES", "es-MX", "es-US", "es-XL", "et-EE", "fi-FI", "fr-BE", "fr-CA",
        "fr-CH", "fr-FR", "he-IL", "hr-HR", "hu-HU", "it-IT", "ja-JP", "ko-KR", "lt-LT", "lv-LV",
        "nb-NO", "nl-BE", "nl-NL", "pl-PL", "pt-BR", "pt-PT", "ro-RO", "ru-RU", "sk-SK", "sl-SL",
        "sv-SE", "th-TH", "tr-TR", "uk-UA", "zh-CN", "zh-HK", "zh-TW",
    ]
}

pub open spec fn default_resolution() -> Seq<char> {
    "UHD"@
}

pub open spec fn default_market() -> Seq<char> {
    "en-US"@
}

pub open spec fn supported_resolution(r: Seq<char>) -> bool {
    text_in(resolutions(), r)
}

pub open spec fn supported_market(m: Seq<char>) -> bool {
    text_in(markets(), m)
}

/// The resolution that is used for a requested one: itself when supported,
/// else the default.
pub open spec fn effective_resolution(r: Seq<char>) -> Seq<char> {
    if supported_resolution(r) {
        r
    } else {
        default_resolution()
    }
}

/// The market that is used for a requested one: itself when supported,
/// else the default.
pub open spec fn effective_market(m: Seq<char>) -> Seq<char> {
    if supported_market(m) {
        m
    } else {
        default_market()
    }
}

/// The resolution used when none was requested, or the requested one's
/// effective value.
pub open spec fn requested_resolution(r: Option<Seq<char>>) -> Seq<char> {
    match r {
        Some(v) => effective_resolution(v),
        None => default_resolution(),
    }
}

fn resolution_list() -> (r: Vec<&'static str>)
    ensures
        r@ == resolutions(),
{
    let r = vec!["auto", "UHD", "1920x1200", "1920x1080", "1366x768", "1280x720", "1024x768", "800x600"];
    assert(r@ =~= resolutions());
    r
}

fn market_list() -> (r: Vec<&'static str>)
    ensures
        r@ == markets(),
{
    let r = vec![
        "auto", "ar-XA", "da-DK", "de-AT", "de-CH", "de-DE", "en-AU", "en-CA", "en-GB", "en-ID",
        "en-IE", "en-IN", "en-MY", "en-NZ", "en-PH", "en-SG", "en-US", "en-WW", "en-XA", "en-ZA",
        "es-AR", "es-CL", "es-ES", "es-MX", "es-US", "es-XL", "et-EE", "fi-FI", "fr-BE", "fr-CA",
        "fr-CH", "fr-FR", "he-IL", "hr-HR", "hu-HU", "it-IT", "ja-JP", "ko-KR", "lt-LT", "lv-LV",
        "nb-NO", "nl-BE", "nl-NL", "pl-PL", "pt-BR", "pt-PT", "ro-RO", "ru-RU", "sk-SK", "sl-SL",
        "sv-SE", "th-TH", "tr-TR", "uk-UA", "zh-CN", "zh-HK", "zh-TW",
    ];
    assert(r@ =~= markets());
    r
}

/// Whether the service publishes images at resolution `r`.
pub fn is_supported_resolution(r: &str) -> (b: bool)
    ensures
        b == supported_resolution(r@),
{
    contains_text(&resolution_list(), r)
}

/// Whether the service knows market `m`.
pub fn is_supported_market(m: &str) -> (b: bool)
    ensures
        b == supported_market(m@),
{
    contains_text(&market_list(), m)
}

/// `r` when supported, else the default resolution.
pub fn pick_resolution<'a>(r: &'a str) -> (e: &'a str)
    ensures
        e@ == effective_resolution(r@),
{
    if is_supported_resolution(r) {
        r
    } else {
        "UHD"
    }
}

/// `m` when supported, else the default market.
pub fn pick_market<'a>(m: &'a str) -> (e: &'a str)
    ensures
        e@ == effective_market(m@),
{
    if is_supported_market(m) {
        m
    } else {
        "en-US"
    }
}

/// The default market is itself supported.
pub proof fn lemma_default_market_supported()
    ensures
        supported_market(default_market()),
{
    assert(markets()[16] == "en-US");
}

/// The default resolution is itself supported.
pub proof fn lemma_default_resolution_supported()
    ensures
        supported_resolution(default_resolution()),
{
    assert(resolutions()[1] == "UHD");
}

/// Applying the fallback to a resolution already in use changes nothing.
pub proof fn lemma_effective_resolution_idempotent(r: Option<Seq<char>>)
    ensures
        effective_resolution(requested_resolution(r)) == requested_resolution(r),
{
    lemma_default_resolution_supported();
}

} // verus!

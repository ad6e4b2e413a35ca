//! The system locales offered.

use vstd::prelude::*;
use crate::text::{string_pair_views, string_pairs_of};

verus! {

/// The system locales offered, each with its language.
pub open spec fn locale_entries() -> Seq<(Seq<char>, Seq<char>)> {
    seq![
        ("en_US.UTF-8"@, "English (United States)"@),
        ("en_GB.UTF-8"@, "English (United Kingdom)"@),
        ("en_AU.UTF-8"@, "English (Australia)"@),
        ("en_CA.UTF-8"@, "English (Canada)"@),
        ("en_IE.UTF-8"@, "English (Ireland)"@),
        ("en_NZ.UTF-8"@, "English (New Zealand)"@),
        ("en_ZA.UTF-8"@, "English (South Africa)"@),
        ("en_IN.UTF-8"@, "English (India)"@),
        ("de_DE.UTF-8"@, "German (Germany)"@),
        ("de_AT.UTF-8"@, "German (Austria)"@),
        ("de_CH.UTF-8"@, "German (Switzerland)"@),
        ("fr_FR.UTF-8"@, "French (France)"@),
        ("fr_BE.UTF-8"@, "French (Belgium)"@),
        ("fr_CA.UTF-8"@, "French (Canada)"@),
        ("fr_CH.UTF-8"@, "French (Switzerland)"@),
        ("es_ES.UTF-8"@, "Spanish (Spain)"@),
        ("es_MX.UTF-8"@, "Spanish (Mexico)"@),
        ("es_AR.UTF-8"@, "Spanish (Argentina)"@),
        ("es_CO.UTF-8"@, "Spanish (Colombia)"@),
        ("it_IT.UTF-8"@, "Italian (Italy)"@),
        ("pt_BR.UTF-8"@, "Portuguese (Brazil)"@),
        ("pt_PT.UTF-8"@, "Portuguese (Portugal)"@),
        ("nl_NL.UTF-8"@, "Dutch (Netherlands)"@),
        ("nl_BE.UTF-8"@, "Dutch (Belgium)"@),
        ("pl_PL.UTF-8"@, "Polish"@),
        ("cs_CZ.UTF-8"@, "Czech"@),
        ("sk_SK.UTF-8"@, "Slovak"@),
        ("hu_HU.UTF-8"@, "Hungarian"@),
        ("ro_RO.UTF-8"@, "Romanian"@),
        ("bg_BG.UTF-8"@, "Bulgarian"@),
        ("hr_HR.UTF-8"@, "Croatian"@),
        ("sl_SI.UTF-8"@, "Slovenian"@),
        ("sr_RS.UTF-8"@, "Serbian"@),
        ("el_GR.UTF-8"@, "Greek"@),
        ("tr_TR.UTF-8"@, "Turkish"@),
        ("uk_UA.UTF-8"@, "Ukrainian"@),
        ("ru_RU.UTF-8"@, "Russian"@),
        ("da_DK.UTF-8"@, "Danish"@),
        ("fi_FI.UTF-8"@, "Finnish"@),
        ("nb_NO.UTF-8"@, "Norwegian (Bokmal)"@),
        ("nn_NO.UTF-8"@, "Norwegian (Nynorsk)"@),
        ("sv_SE.UTF-8"@, "Swedish"@),
        ("is_IS.UTF-8"@, "Icelandic"@),
        ("et_EE.UTF-8"@, "Estonian"@),
        ("lt_LT.UTF-8"@, "Lithuanian"@),
        ("lv_LV.UTF-8"@, "Latvian"@),
        ("ja_JP.UTF-8"@, "Japanese"@),
        ("ko_KR.UTF-8"@, "Korean"@),
        ("zh_CN.UTF-8"@, "Chinese (Simplified)"@),
        ("zh_TW.UTF-8"@, "Chinese (Traditional)"@),
        ("th_TH.UTF-8"@, "Thai"@),
        ("vi_VN.UTF-8"@, "Vietnamese"@),
        ("hi_IN.UTF-8"@, "Hindi"@),
        ("ar_SA.UTF-8"@, "Arabic (Saudi Arabia)"@),
        ("he_IL.UTF-8"@, "Hebrew"@),
        ("id_ID.UTF-8"@, "Indonesian"@),
        ("ms_MY.UTF-8"@, "Malay"@),
    ]
}

/// The system locales offered, each with its language.
pub fn get_locale_list() -> (r: Vec<(String, String)>)
    ensures
        string_pair_views(r@) == locale_entries(),
{
    string_pairs_of(&[
        ("en_US.UTF-8", "English (United States)"),
        ("en_GB.UTF-8", "English (United Kingdom)"),
        ("en_AU.UTF-8", "English (Australia)"),
        ("en_CA.UTF-8", "English (Canada)"),
        ("en_IE.UTF-8", "English (Ireland)"),
        ("en_NZ.UTF-8", "English (New Zealand)"),
        ("en_ZA.UTF-8", "English (South Africa)"),
        ("en_IN.UTF-8", "English (India)"),
        ("de_DE.UTF-8", "German (Germany)"),
        ("de_AT.UTF-8", "German (Austria)"),
        ("de_CH.UTF-8", "German (Switzerland)"),
        ("fr_FR.UTF-8", "French (France)"),
        ("fr_BE.UTF-8", "French (Belgium)"),
        ("fr_CA.UTF-8", "French (Canada)"),
        ("fr_CH.UTF-8", "French (Switzerland)"),
        ("es_ES.UTF-8", "Spanish (Spain)"),
        ("es_MX.UTF-8", "Spanish (Mexico)"),
        ("es_AR.UTF-8", "Spanish (Argentina)"),
        ("es_CO.UTF-8", "Spanish (Colombia)"),
        ("it_IT.UTF-8", "Italian (Italy)"),
        ("pt_BR.UTF-8", "Portuguese (Brazil)"),
        ("pt_PT.UTF-8", "Portuguese (Portugal)"),
        ("nl_NL.UTF-8", "Dutch (Netherlands)"),
        ("nl_BE.UTF-8", "Dutch (Belgium)"),
        ("pl_PL.UTF-8", "Polish"),
        ("cs_CZ.UTF-8", "Czech"),
        ("sk_SK.UTF-8", "Slovak"),
        ("hu_HU.UTF-8", "Hungarian"),
        ("ro_RO.UTF-8", "Romanian"),
        ("bg_BG.UTF-8", "Bulgarian"),
        ("hr_HR.UTF-8", "Croatian"),
        ("sl_SI.UTF-8", "Slovenian"),
        ("sr_RS.UTF-8", "Serbian"),
        ("el_GR.UTF-8", "Greek"),
        ("tr_TR.UTF-8", "Turkish"),
        ("uk_UA.UTF-8", "Ukrainian"),
        ("ru_RU.UTF-8", "Russian"),
        ("da_DK.UTF-8", "Danish"),
        ("fi_FI.UTF-8", "Finnish"),
        ("nb_NO.UTF-8", "Norwegian (Bokmal)"),
        ("nn_NO.UTF-8", "Norwegian (Nynorsk)"),
        ("sv_SE.UTF-8", "Swedish"),
        ("is_IS.UTF-8", "Icelandic"),
        ("et_EE.UTF-8", "Estonian"),
        ("lt_LT.UTF-8", "Lithuanian"),
        ("lv_LV.UTF-8", "Latvian"),
        ("ja_JP.UTF-8", "Japanese"),
        ("ko_KR.UTF-8", "Korean"),
        ("zh_CN.UTF-8", "Chinese (Simplified)"),
        ("zh_TW.UTF-8", "Chinese (Traditional)"),
        ("th_TH.UTF-8", "Thai"),
        ("vi_VN.UTF-8", "Vietnamese"),
        ("hi_IN.UTF-8", "Hindi"),
        ("ar_SA.UTF-8", "Arabic (Saudi Arabia)"),
        ("he_IL.UTF-8", "Hebrew"),
        ("id_ID.UTF-8", "Indonesian"),
        ("ms_MY.UTF-8", "Malay"),
    ])
}

} // verus!

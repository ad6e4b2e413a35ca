//! The console keymaps offered for the keyboard layout.

use vstd::prelude::*;
use crate::text::{string_pair_views, string_pairs_of};

verus! {

/// The console keymaps offered, each with its name: the common layouts first.
pub open spec fn keymap_entries() -> Seq<(Seq<char>, Seq<char>)> {
    seq![
        ("us"@, "English (US)"@),
        ("uk"@, "English (UK)"@),
        ("de"@, "German"@),
        ("fr"@, "French"@),
        ("es"@, "Spanish"@),
        ("it"@, "Italian"@),
        ("pt-latin1"@, "Portuguese"@),
        ("br-abnt2"@, "Portuguese (Brazil)"@),
        ("ru"@, "Russian"@),
        ("jp106"@, "Japanese"@),
        ("ko"@, "Korean"@),
        ("be-latin1"@, "Belgian"@),
        ("bg_bds-utf8"@, "Bulgarian"@),
        ("cf"@, "Canadian French"@),
        ("croat"@, "Croatian"@),
        ("cz-qwertz"@, "Czech"@),
        ("dk"@, "Danish"@),
        ("dvorak"@, "Dvorak"@),
        ("et"@, "Estonian"@),
        ("fi"@, "Finnish"@),
        ("gr"@, "Greek"@),
        ("hu"@, "Hungarian"@),
        ("is-latin1"@, "Icelandic"@),
        ("il"@, "Israeli (Hebrew)"@),
        ("lt.baltic"@, "Lithuanian"@),
        ("lv"@, "Latvian"@),
        ("mk"@, "Macedonian"@),
        ("nl"@, "Dutch"@),
        ("no"@, "Norwegian"@),
        ("pl2"@, "Polish"@),
        ("ro"@, "Romanian"@),
        ("sk-qwertz"@, "Slovak"@),
        ("si"@, "Slovenian"@),
        ("se"@, "Swedish"@),
        ("sg"@, "Swiss German"@),
        ("fr_CH"@, "Swiss French"@),
        ("trq"@, "Turkish"@),
        ("ua-utf"@, "Ukrainian"@),
        ("colemak"@, "Colemak"@),
        ("la-latin1"@, "Latin American"@),
        ("us-acentos"@, "US International"@),
    ]
}

/// The console keymaps offered, each with its name: the common layouts first.
pub fn get_keymap_list() -> (r: Vec<(String, String)>)
    ensures
        string_pair_views(r@) == keymap_entries(),
{
    string_pairs_of(&[
        ("us", "English (US)"),
        ("uk", "English (UK)"),
        ("de", "German"),
        ("fr", "French"),
        ("es", "Spanish"),
        ("it", "Italian"),
        ("pt-latin1", "Portuguese"),
        ("br-abnt2", "Portuguese (Brazil)"),
        ("ru", "Russian"),
        ("jp106", "Japanese"),
        ("ko", "Korean"),
        ("be-latin1", "Belgian"),
        ("bg_bds-utf8", "Bulgarian"),
        ("cf", "Canadian French"),
        ("croat", "Croatian"),
        ("cz-qwertz", "Czech"),
        ("dk", "Danish"),
        ("dvorak", "Dvorak"),
        ("et", "Estonian"),
        ("fi", "Finnish"),
        ("gr", "Greek"),
        ("hu", "Hungarian"),
        ("is-latin1", "Icelandic"),
        ("il", "Israeli (Hebrew)"),
        ("lt.baltic", "Lithuanian"),
        ("lv", "Latvian"),
        ("mk", "Macedonian"),
        ("nl", "Dutch"),
        ("no", "Norwegian"),
        ("pl2", "Polish"),
        ("ro", "Romanian"),
        ("sk-qwertz", "Slovak"),
        ("si", "Slovenian"),
        ("se", "Swedish"),
        ("sg", "Swiss German"),
        ("fr_CH", "Swiss French"),
        ("trq", "Turkish"),
        ("ua-utf", "Ukrainian"),
        ("colemak", "Colemak"),
        ("la-latin1", "Latin American"),
        ("us-acentos", "US International"),
    ])
}

} // verus!

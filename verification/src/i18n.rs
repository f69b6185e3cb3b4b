//! Interface texts in French, German or English, chosen from the `LANG` setting.

use vstd::prelude::*;
use crate::text::{starts_with, str_eq};

verus! {

/// The languages the interface is written in.
#[derive(PartialEq, Eq, Structural, Clone, Copy, Debug)]
pub enum Language {
    French,
    German,
    English,
}

/// The language a `LANG` value selects: French for a value that starts with `fr`,
/// German for one that starts with `de`, English otherwise.
pub open spec fn language_of(lang: Seq<char>) -> Language {
    if lang.len() >= 2 && lang.subrange(0, 2) == "fr"@ {
        Language::French
    } else if lang.len() >= 2 && lang.subrange(0, 2) == "de"@ {
        Language::German
    } else {
        Language::English
    }
}

/// One of three texts, by language.
pub open spec fn by_language(l: Language, fr: Seq<char>, de: Seq<char>, en: Seq<char>) -> Seq<char> {
    match l {
        Language::French => fr,
        Language::German => de,
        Language::English => en,
    }
}

/// The text shown for `key` in language `l`; a key without a translation stands for
/// itself.
pub open spec fn translation(l: Language, key: Seq<char>) -> Seq<char> {
    if key == "dashboard_title"@ {
        by_language(l, "Dashboard NekoLand"@, "NekoLand Dashboard"@, "NekoLand Dashboard"@)
    } else if key == "app_title"@ {
        by_language(l, "Contrôle NekoLand"@, "NekoLand Steuerung"@, "NekoLand Control"@)
    } else if key == "mode"@ {
        by_language(l, "Comportement (Mode)"@, "Verhalten (Modus)"@, "Behavior (Mode)"@)
    } else if key == "skin"@ {
        by_language(l, "Apparence (Skin)"@, "Aussehen (Skin)"@, "Appearance (Skin)"@)
    } else if key == "toy"@ {
        by_language(l, "Pelote (Jouet)"@, "Spielzeug (Item)"@, "Toy (Item)"@)
    } else if key == "scale"@ {
        by_language(l, "Taille (Scale)"@, "Größe (Scale)"@, "Size (Scale)"@)
    } else if key == "twitch_channel"@ {
        by_language(
            l,
            "Canal Twitch (Streamer)"@,
            "Twitch-Kanal (Streamer)"@,
            "Twitch Channel (Streamer)"@,
        )
    } else if key == "twitch_placeholder"@ {
        by_language(
            l,
            "nom de la chaîne, puis Entrée"@,
            "Kanalname, dann Enter"@,
            "channel name, then Enter"@,
        )
    } else if key == "save_mapping"@ {
        by_language(l, "💾 Enregistrer mapping"@, "💾 Mapping speichern"@, "💾 Save mapping"@)
    } else if key == "close"@ {
        by_language(l, "Fermer (Échap)"@, "Schließen (Esc)"@, "Close (Esc)"@)
    } else if key == "sprite_editor"@ {
        by_language(l, "Éditeur de sprites"@, "Sprite-Editor"@, "Sprite Editor"@)
    } else if key == "saved"@ {
        by_language(l, "Enregistré ✓"@, "Gespeichert ✓"@, "Saved ✓"@)
    } else if key == "failed"@ {
        by_language(l, "Échec !"@, "Fehlgeschlagen!"@, "Failed!"@)
    } else if key == "options"@ {
        by_language(l, "Options / Dashboard"@, "Optionen / Dashboard"@, "Options / Dashboard"@)
    } else if key == "quit"@ {
        by_language(l, "Quitter"@, "Beenden"@, "Quit"@)
    } else if key == "credits"@ {
        by_language(l, "Crédits : The Neko Archive Project & Neko (software). Merci à m4keuse (twitch.tv/m4keuse) pour l'idée, inspirée de NekoV2 d'Aqueuse (github.com/Aqueuse/NekoV2)."@, "Credits: The Neko Archive Project & Neko (software). Dank an m4keuse (twitch.tv/m4keuse) für die Idee, inspiriert von Aqueuses NekoV2 (github.com/Aqueuse/NekoV2)."@, "Credits: The Neko Archive Project & Neko (software). Thanks to m4keuse (twitch.tv/m4keuse) for the idea, inspired by Aqueuse's NekoV2 (github.com/Aqueuse/NekoV2)."@)
    } else {
        key
    }
}

/// The language that a `LANG` value selects.
pub fn language(lang: &str) -> (l: Language)
    ensures
        l == language_of(lang@),
{
    proof {
        reveal_strlit("fr");
        reveal_strlit("de");
    }
    if starts_with(lang, "fr") {
        Language::French
    } else if starts_with(lang, "de") {
        Language::German
    } else {
        Language::English
    }
}

fn pick<'a>(l: Language, fr: &'a str, de: &'a str, en: &'a str) -> (r: &'a str)
    ensures
        r@ == by_language(l, fr@, de@, en@),
{
    match l {
        Language::French => fr,
        Language::German => de,
        Language::English => en,
    }
}

/// The interface text for `key`, in the language that the `LANG` value `lang`
/// selects. A key without a translation is returned as it is.
pub fn translate(lang: &str, key: &str) -> (text: String)
    ensures
        text@ == translation(language_of(lang@), key@),
{
    let l = language(lang);
    let t: &str = if str_eq(key, "dashboard_title") {
        pick(l, "Dashboard NekoLand", "NekoLand Dashboard", "NekoLand Dashboard")
    } else if str_eq(key, "app_title") {
        pick(l, "Contrôle NekoLand", "NekoLand Steuerung", "NekoLand Control")
    } else if str_eq(key, "mode") {
        pick(l, "Comportement (Mode)", "Verhalten (Modus)", "Behavior (Mode)")
    } else if str_eq(key, "skin") {
        pick(l, "Apparence (Skin)", "Aussehen (Skin)", "Appearance (Skin)")
    } else if str_eq(key, "toy") {
        pick(l, "Pelote (Jouet)", "Spielzeug (Item)", "Toy (Item)")
    } else if str_eq(key, "scale") {
        pick(l, "Taille (Scale)", "Größe (Scale)", "Size (Scale)")
    } else if str_eq(key, "twitch_channel") {
        pick(l, "Canal Twitch (Streamer)", "Twitch-Kanal (Streamer)", "Twitch Channel (Streamer)")
    } else if str_eq(key, "twitch_placeholder") {
        pick(l, "nom de la chaîne, puis Entrée", "Kanalname, dann Enter", "channel name, then Enter")
    } else if str_eq(key, "save_mapping") {
        pick(l, "💾 Enregistrer mapping", "💾 Mapping speichern", "💾 Save mapping")
    } else if str_eq(key, "close") {
        pick(l, "Fermer (Échap)", "Schließen (Esc)", "Close (Esc)")
    } else if str_eq(key, "sprite_editor") {
        pick(l, "Éditeur de sprites", "Sprite-Editor", "Sprite Editor")
    } else if str_eq(key, "saved") {
        pick(l, "Enregistré ✓", "Gespeichert ✓", "Saved ✓")
    } else if str_eq(key, "failed") {
        pick(l, "Échec !", "Fehlgeschlagen!", "Failed!")
    } else if str_eq(key, "options") {
        pick(l, "Options / Dashboard", "Optionen / Dashboard", "Options / Dashboard")
    } else if str_eq(key, "quit") {
        pick(l, "Quitter", "Beenden", "Quit")
    } else if str_eq(key, "credits") {
        pick(l, "Crédits : The Neko Archive Project & Neko (software). Merci à m4keuse (twitch.tv/m4keuse) pour l'idée, inspirée de NekoV2 d'Aqueuse (github.com/Aqueuse/NekoV2).", "Credits: The Neko Archive Project & Neko (software). Dank an m4keuse (twitch.tv/m4keuse) für die Idee, inspiriert von Aqueuses NekoV2 (github.com/Aqueuse/NekoV2).", "Credits: The Neko Archive Project & Neko (software). Thanks to m4keuse (twitch.tv/m4keuse) for the idea, inspired by Aqueuse's NekoV2 (github.com/Aqueuse/NekoV2).")
    } else {
        key
    };
    t.to_owned()
}

proof fn lemma_keys_distinct()
    ensures
        "app_title"@ != "dashboard_title"@,
        "mode"@ != "dashboard_title"@,
        "mode"@ != "app_title"@,
        "skin"@ != "dashboard_title"@,
        "skin"@ != "app_title"@,
        "skin"@ != "mode"@,
        "toy"@ != "dashboard_title"@,
        "toy"@ != "app_title"@,
        "toy"@ != "mode"@,
        "toy"@ != "skin"@,
        "scale"@ != "dashboard_title"@,
        "scale"@ != "app_title"@,
        "scale"@ != "mode"@,
        "scale"@ != "skin"@,
        "scale"@ != "toy"@,
        "twitch_channel"@ != "dashboard_title"@,
        "twitch_channel"@ != "app_title"@,
        "twitch_channel"@ != "mode"@,
        "twitch_channel"@ != "skin"@,
        "twitch_channel"@ != "toy"@,
        "twitch_channel"@ != "scale"@,
        "twitch_placeholder"@ != "dashboard_title"@,
        "twitch_placeholder"@ != "app_title"@,
        "twitch_placeholder"@ != "mode"@,
        "twitch_placeholder"@ != "skin"@,
        "twitch_placeholder"@ != "toy"@,
        "twitch_placeholder"@ != "scale"@,
        "twitch_placeholder"@ != "twitch_channel"@,
        "save_mapping"@ != "dashboard_title"@,
        "save_mapping"@ != "app_title"@,
        "save_mapping"@ != "mode"@,
        "save_mapping"@ != "skin"@,
        "save_mapping"@ != "toy"@,
        "save_mapping"@ != "scale"@,
        "save_mapping"@ != "twitch_channel"@,
        "save_mapping"@ != "twitch_placeholder"@,
        "close"@ != "dashboard_title"@,
        "close"@ != "app_title"@,
        "close"@ != "mode"@,
        "close"@ != "skin"@,
        "close"@ != "toy"@,
        "close"@ != "scale"@,
        "close"@ != "twitch_channel"@,
        "close"@ != "twitch_placeholder"@,
        "close"@ != "save_mapping"@,
        "sprite_editor"@ != "dashboard_title"@,
        "sprite_editor"@ != "app_title"@,
        "sprite_editor"@ != "mode"@,
        "sprite_editor"@ != "skin"@,
        "sprite_editor"@ != "toy"@,
        "sprite_editor"@ != "scale"@,
        "sprite_editor"@ != "twitch_channel"@,
        "sprite_editor"@ != "twitch_placeholder"@,
        "sprite_editor"@ != "save_mapping"@,
        "sprite_editor"@ != "close"@,
        "saved"@ != "dashboard_title"@,
        "saved"@ != "app_title"@,
        "saved"@ != "mode"@,
        "saved"@ != "skin"@,
        "saved"@ != "toy"@,
        "saved"@ != "scale"@,
        "saved"@ != "twitch_channel"@,
        "saved"@ != "twitch_placeholder"@,
        "saved"@ != "save_mapping"@,
        "saved"@ != "close"@,
        "saved"@ != "sprite_editor"@,
        "failed"@ != "dashboard_title"@,
        "failed"@ != "app_title"@,
        "failed"@ != "mode"@,
        "failed"@ != "skin"@,
        "failed"@ != "toy"@,
        "failed"@ != "scale"@,
        "failed"@ != "twitch_channel"@,
        "failed"@ != "twitch_placeholder"@,
        "failed"@ != "save_mapping"@,
        "failed"@ != "close"@,
        "failed"@ != "sprite_editor"@,
        "failed"@ != "saved"@,
        "options"@ != "dashboard_title"@,
        "options"@ != "app_title"@,
        "options"@ != "mode"@,
        "options"@ != "skin"@,
        "options"@ != "toy"@,
        "options"@ != "scale"@,
        "options"@ != "twitch_channel"@,
        "options"@ != "twitch_placeholder"@,
        "options"@ != "save_mapping"@,
        "options"@ != "close"@,
        "options"@ != "sprite_editor"@,
        "options"@ != "saved"@,
        "options"@ != "failed"@,
        "quit"@ != "dashboard_title"@,
        "quit"@ != "app_title"@,
        "quit"@ != "mode"@,
        "quit"@ != "skin"@,
        "quit"@ != "toy"@,
        "quit"@ != "scale"@,
        "quit"@ != "twitch_channel"@,
        "quit"@ != "twitch_placeholder"@,
        "quit"@ != "save_mapping"@,
        "quit"@ != "close"@,
        "quit"@ != "sprite_editor"@,
        "quit"@ != "saved"@,
        "quit"@ != "failed"@,
        "quit"@ != "options"@,
        "credits"@ != "dashboard_title"@,
        "credits"@ != "app_title"@,
        "credits"@ != "mode"@,
        "credits"@ != "skin"@,
        "credits"@ != "toy"@,
        "credits"@ != "scale"@,
        "credits"@ != "twitch_channel"@,
        "credits"@ != "twitch_placeholder"@,
        "credits"@ != "save_mapping"@,
        "credits"@ != "close"@,
        "credits"@ != "sprite_editor"@,
        "credits"@ != "saved"@,
        "credits"@ != "failed"@,
        "credits"@ != "options"@,
        "credits"@ != "quit"@,
{
    reveal_strlit("dashboard_title");
    assert("dashboard_title"@.len() == 15);
    reveal_strlit("app_title");
    assert("app_title"@.len() == 9);
    reveal_strlit("mode");
    assert("mode"@.len() == 4);
    reveal_strlit("skin");
    assert("skin"@.len() == 4);
    reveal_strlit("toy");
    assert("toy"@.len() == 3);
    reveal_strlit("scale");
    assert("scale"@.len() == 5);
    reveal_strlit("twitch_channel");
    assert("twitch_channel"@.len() == 14);
    reveal_strlit("twitch_placeholder");
    assert("twitch_placeholder"@.len() == 18);
    reveal_strlit("save_mapping");
    assert("save_mapping"@.len() == 12);
    reveal_strlit("close");
    assert("close"@.len() == 5);
    reveal_strlit("sprite_editor");
    assert("sprite_editor"@.len() == 13);
    reveal_strlit("saved");
    assert("saved"@.len() == 5);
    reveal_strlit("failed");
    assert("failed"@.len() == 6);
    reveal_strlit("options");
    assert("options"@.len() == 7);
    reveal_strlit("quit");
    assert("quit"@.len() == 4);
    reveal_strlit("credits");
    assert("credits"@.len() == 7);
    assert("app_title"@ != "dashboard_title"@);
    assert("mode"@ != "dashboard_title"@);
    assert("mode"@ != "app_title"@);
    assert("skin"@ != "dashboard_title"@);
    assert("skin"@ != "app_title"@);
    assert("skin"@[0] == 's' && "mode"@[0] == 'm');
    assert("skin"@ != "mode"@);
    assert("toy"@ != "dashboard_title"@);
    assert("toy"@ != "app_title"@);
    assert("toy"@ != "mode"@);
    assert("toy"@ != "skin"@);
    assert("scale"@ != "dashboard_title"@);
    assert("scale"@ != "app_title"@);
    assert("scale"@ != "mode"@);
    assert("scale"@ != "skin"@);
    assert("scale"@ != "toy"@);
    assert("twitch_channel"@ != "dashboard_title"@);
    assert("twitch_channel"@ != "app_title"@);
    assert("twitch_channel"@ != "mode"@);
    assert("twitch_channel"@ != "skin"@);
    assert("twitch_channel"@ != "toy"@);
    assert("twitch_channel"@ != "scale"@);
    assert("twitch_placeholder"@ != "dashboard_title"@);
    assert("twitch_placeholder"@ != "app_title"@);
    assert("twitch_placeholder"@ != "mode"@);
    assert("twitch_placeholder"@ != "skin"@);
    assert("twitch_placeholder"@ != "toy"@);
    assert("twitch_placeholder"@ != "scale"@);
    assert("twitch_placeholder"@ != "twitch_channel"@);
    assert("save_mapping"@ != "dashboard_title"@);
    assert("save_mapping"@ != "app_title"@);
    assert("save_mapping"@ != "mode"@);
    assert("save_mapping"@ != "skin"@);
    assert("save_mapping"@ != "toy"@);
    assert("save_mapping"@ != "scale"@);
    assert("save_mapping"@ != "twitch_channel"@);
    assert("save_mapping"@ != "twitch_placeholder"@);
    assert("close"@ != "dashboard_title"@);
    assert("close"@ != "app_title"@);
    assert("close"@ != "mode"@);
    assert("close"@ != "skin"@);
    assert("close"@ != "toy"@);
    assert("close"@[0] == 'c' && "scale"@[0] == 's');
    assert("close"@ != "scale"@);
    assert("close"@ != "twitch_channel"@);
    assert("close"@ != "twitch_placeholder"@);
    assert("close"@ != "save_mapping"@);
    assert("sprite_editor"@ != "dashboard_title"@);
    assert("sprite_editor"@ != "app_title"@);
    assert("sprite_editor"@ != "mode"@);
    assert("sprite_editor"@ != "skin"@);
    assert("sprite_editor"@ != "toy"@);
    assert("sprite_editor"@ != "scale"@);
    assert("sprite_editor"@ != "twitch_channel"@);
    assert("sprite_editor"@ != "twitch_placeholder"@);
    assert("sprite_editor"@ != "save_mapping"@);
    assert("sprite_editor"@ != "close"@);
    assert("saved"@ != "dashboard_title"@);
    assert("saved"@ != "app_title"@);
    assert("saved"@ != "mode"@);
    assert("saved"@ != "skin"@);
    assert("saved"@ != "toy"@);
    assert("saved"@[1] == 'a' && "scale"@[1] == 'c');
    assert("saved"@ != "scale"@);
    assert("saved"@ != "twitch_channel"@);
    assert("saved"@ != "twitch_placeholder"@);
    assert("saved"@ != "save_mapping"@);
    assert("saved"@[0] == 's' && "close"@[0] == 'c');
    assert("saved"@ != "close"@);
    assert("saved"@ != "sprite_editor"@);
    assert("failed"@ != "dashboard_title"@);
    assert("failed"@ != "app_title"@);
    assert("failed"@ != "mode"@);
    assert("failed"@ != "skin"@);
    assert("failed"@ != "toy"@);
    assert("failed"@ != "scale"@);
    assert("failed"@ != "twitch_channel"@);
    assert("failed"@ != "twitch_placeholder"@);
    assert("failed"@ != "save_mapping"@);
    assert("failed"@ != "close"@);
    assert("failed"@ != "sprite_editor"@);
    assert("failed"@ != "saved"@);
    assert("options"@ != "dashboard_title"@);
    assert("options"@ != "app_title"@);
    assert("options"@ != "mode"@);
    assert("options"@ != "skin"@);
    assert("options"@ != "toy"@);
    assert("options"@ != "scale"@);
    assert("options"@ != "twitch_channel"@);
    assert("options"@ != "twitch_placeholder"@);
    assert("options"@ != "save_mapping"@);
    assert("options"@ != "close"@);
    assert("options"@ != "sprite_editor"@);
    assert("options"@ != "saved"@);
    assert("options"@ != "failed"@);
    assert("quit"@ != "dashboard_title"@);
    assert("quit"@ != "app_title"@);
    assert("quit"@[0] == 'q' && "mode"@[0] == 'm');
    assert("quit"@ != "mode"@);
    assert("quit"@[0] == 'q' && "skin"@[0] == 's');
    assert("quit"@ != "skin"@);
    assert("quit"@ != "toy"@);
    assert("quit"@ != "scale"@);
    assert("quit"@ != "twitch_channel"@);
    assert("quit"@ != "twitch_placeholder"@);
    assert("quit"@ != "save_mapping"@);
    assert("quit"@ != "close"@);
    assert("quit"@ != "sprite_editor"@);
    assert("quit"@ != "saved"@);
    assert("quit"@ != "failed"@);
    assert("quit"@ != "options"@);
    assert("credits"@ != "dashboard_title"@);
    assert("credits"@ != "app_title"@);
    assert("credits"@ != "mode"@);
    assert("credits"@ != "skin"@);
    assert("credits"@ != "toy"@);
    assert("credits"@ != "scale"@);
    assert("credits"@ != "twitch_channel"@);
    assert("credits"@ != "twitch_placeholder"@);
    assert("credits"@ != "save_mapping"@);
    assert("credits"@ != "close"@);
    assert("credits"@ != "sprite_editor"@);
    assert("credits"@ != "saved"@);
    assert("credits"@ != "failed"@);
    assert("credits"@[0] == 'c' && "options"@[0] == 'o');
    assert("credits"@ != "options"@);
    assert("credits"@ != "quit"@);
}

/// Under a French `LANG`, every known key shows its French text.
pub proof fn law_french_texts()
    ensures
        translation(Language::French, "dashboard_title"@) == "Dashboard NekoLand"@,
        translation(Language::French, "app_title"@) == "Contrôle NekoLand"@,
        translation(Language::French, "mode"@) == "Comportement (Mode)"@,
        translation(Language::French, "skin"@) == "Apparence (Skin)"@,
        translation(Language::French, "toy"@) == "Pelote (Jouet)"@,
        translation(Language::French, "scale"@) == "Taille (Scale)"@,
        translation(Language::French, "twitch_channel"@) == "Canal Twitch (Streamer)"@,
        translation(Language::French, "twitch_placeholder"@) == "nom de la chaîne, puis Entrée"@,
        translation(Language::French, "save_mapping"@) == "💾 Enregistrer mapping"@,
        translation(Language::French, "close"@) == "Fermer (Échap)"@,
        translation(Language::French, "sprite_editor"@) == "Éditeur de sprites"@,
        translation(Language::French, "saved"@) == "Enregistré ✓"@,
        translation(Language::French, "failed"@) == "Échec !"@,
        translation(Language::French, "options"@) == "Options / Dashboard"@,
        translation(Language::French, "quit"@) == "Quitter"@,
        translation(Language::French, "credits"@) == "Crédits : The Neko Archive Project & Neko (software). Merci à m4keuse (twitch.tv/m4keuse) pour l'idée, inspirée de NekoV2 d'Aqueuse (github.com/Aqueuse/NekoV2)."@,
{
    lemma_keys_distinct();
}

/// Under a German `LANG`, every known key shows its German text.
pub proof fn law_german_texts()
    ensures
        translation(Language::German, "dashboard_title"@) == "NekoLand Dashboard"@,
        translation(Language::German, "app_title"@) == "NekoLand Steuerung"@,
        translation(Language::German, "mode"@) == "Verhalten (Modus)"@,
        translation(Language::German, "skin"@) == "Aussehen (Skin)"@,
        translation(Language::German, "toy"@) == "Spielzeug (Item)"@,
        translation(Language::German, "scale"@) == "Größe (Scale)"@,
        translation(Language::German, "twitch_channel"@) == "Twitch-Kanal (Streamer)"@,
        translation(Language::German, "twitch_placeholder"@) == "Kanalname, dann Enter"@,
        translation(Language::German, "save_mapping"@) == "💾 Mapping speichern"@,
        translation(Language::German, "close"@) == "Schließen (Esc)"@,
        translation(Language::German, "sprite_editor"@) == "Sprite-Editor"@,
        translation(Language::German, "saved"@) == "Gespeichert ✓"@,
        translation(Language::German, "failed"@) == "Fehlgeschlagen!"@,
        translation(Language::German, "options"@) == "Optionen / Dashboard"@,
        translation(Language::German, "quit"@) == "Beenden"@,
        translation(Language::German, "credits"@) == "Credits: The Neko Archive Project & Neko (software). Dank an m4keuse (twitch.tv/m4keuse) für die Idee, inspiriert von Aqueuses NekoV2 (github.com/Aqueuse/NekoV2)."@,
{
    lemma_keys_distinct();
}

/// Under any other `LANG`, every known key shows its English text.
pub proof fn law_english_texts()
    ensures
        translation(Language::English, "dashboard_title"@) == "NekoLand Dashboard"@,
        translation(Language::English, "app_title"@) == "NekoLand Control"@,
        translation(Language::English, "mode"@) == "Behavior (Mode)"@,
        translation(Language::English, "skin"@) == "Appearance (Skin)"@,
        translation(Language::English, "toy"@) == "Toy (Item)"@,
        translation(Language::English, "scale"@) == "Size (Scale)"@,
        translation(Language::English, "twitch_channel"@) == "Twitch Channel (Streamer)"@,
        translation(Language::English, "twitch_placeholder"@) == "channel name, then Enter"@,
        translation(Language::English, "save_mapping"@) == "💾 Save mapping"@,
        translation(Language::English, "close"@) == "Close (Esc)"@,
        translation(Language::English, "sprite_editor"@) == "Sprite Editor"@,
        translation(Language::English, "saved"@) == "Saved ✓"@,
        translation(Language::English, "failed"@) == "Failed!"@,
        translation(Language::English, "options"@) == "Options / Dashboard"@,
        translation(Language::English, "quit"@) == "Quit"@,
        translation(Language::English, "credits"@) == "Credits: The Neko Archive Project & Neko (software). Thanks to m4keuse (twitch.tv/m4keuse) for the idea, inspired by Aqueuse's NekoV2 (github.com/Aqueuse/NekoV2)."@,
{
    lemma_keys_distinct();
}

/// A French user reads French: for every known key but `options` (whose text is
/// the same in both), the text shown under a French `LANG` differs from the one
/// shown under an English `LANG`.
pub proof fn law_french_is_not_english(key: Seq<char>)
    requires
        key == "dashboard_title"@ ||
        key == "app_title"@ ||
        key == "mode"@ ||
        key == "skin"@ ||
        key == "toy"@ ||
        key == "scale"@ ||
        key == "twitch_channel"@ ||
        key == "twitch_placeholder"@ ||
        key == "save_mapping"@ ||
        key == "close"@ ||
        key == "sprite_editor"@ ||
        key == "saved"@ ||
        key == "failed"@ ||
        key == "quit"@ ||
        key == "credits"@,
    ensures
        translation(Language::French, key) != translation(Language::English, key),
{
    law_french_texts();
    law_english_texts();
    if key == "dashboard_title"@ {
        reveal_strlit("Dashboard NekoLand");
        reveal_strlit("NekoLand Dashboard");
        assert("Dashboard NekoLand"@[0] == 'D' && "NekoLand Dashboard"@[0] == 'N');
        assert("Dashboard NekoLand"@ != "NekoLand Dashboard"@);
    }
    if key == "app_title"@ {
        reveal_strlit("Contrôle NekoLand");
        reveal_strlit("NekoLand Control");
        assert("Contrôle NekoLand"@.len() == 17 && "NekoLand Control"@.len() == 16);
        assert("Contrôle NekoLand"@ != "NekoLand Control"@);
    }
    if key == "mode"@ {
        reveal_strlit("Comportement (Mode)");
        reveal_strlit("Behavior (Mode)");
        assert("Comportement (Mode)"@.len() == 19 && "Behavior (Mode)"@.len() == 15);
        assert("Comportement (Mode)"@ != "Behavior (Mode)"@);
    }
    if key == "skin"@ {
        reveal_strlit("Apparence (Skin)");
        reveal_strlit("Appearance (Skin)");
        assert("Apparence (Skin)"@.len() == 16 && "Appearance (Skin)"@.len() == 17);
        assert("Apparence (Skin)"@ != "Appearance (Skin)"@);
    }
    if key == "toy"@ {
        reveal_strlit("Pelote (Jouet)");
        reveal_strlit("Toy (Item)");
        assert("Pelote (Jouet)"@.len() == 14 && "Toy (Item)"@.len() == 10);
        assert("Pelote (Jouet)"@ != "Toy (Item)"@);
    }
    if key == "scale"@ {
        reveal_strlit("Taille (Scale)");
        reveal_strlit("Size (Scale)");
        assert("Taille (Scale)"@.len() == 14 && "Size (Scale)"@.len() == 12);
        assert("Taille (Scale)"@ != "Size (Scale)"@);
    }
    if key == "twitch_channel"@ {
        reveal_strlit("Canal Twitch (Streamer)");
        reveal_strlit("Twitch Channel (Streamer)");
        assert("Canal Twitch (Streamer)"@.len() == 23 && "Twitch Channel (Streamer)"@.len() == 25);
        assert("Canal Twitch (Streamer)"@ != "Twitch Channel (Streamer)"@);
    }
    if key == "twitch_placeholder"@ {
        reveal_strlit("nom de la chaîne, puis Entrée");
        reveal_strlit("channel name, then Enter");
        assert("nom de la chaîne, puis Entrée"@.len() == 29 && "channel name, then Enter"@.len() == 24);
        assert("nom de la chaîne, puis Entrée"@ != "channel name, then Enter"@);
    }
    if key == "save_mapping"@ {
        reveal_strlit("💾 Enregistrer mapping");
        reveal_strlit("💾 Save mapping");
        assert("💾 Enregistrer mapping"@.len() == 21 && "💾 Save mapping"@.len() == 14);
        assert("💾 Enregistrer mapping"@ != "💾 Save mapping"@);
    }
    if key == "close"@ {
        reveal_strlit("Fermer (Échap)");
        reveal_strlit("Close (Esc)");
        assert("Fermer (Échap)"@.len() == 14 && "Close (Esc)"@.len() == 11);
        assert("Fermer (Échap)"@ != "Close (Esc)"@);
    }
    if key == "sprite_editor"@ {
        reveal_strlit("Éditeur de sprites");
        reveal_strlit("Sprite Editor");
        assert("Éditeur de sprites"@.len() == 18 && "Sprite Editor"@.len() == 13);
        assert("Éditeur de sprites"@ != "Sprite Editor"@);
    }
    if key == "saved"@ {
        reveal_strlit("Enregistré ✓");
        reveal_strlit("Saved ✓");
        assert("Enregistré ✓"@.len() == 12 && "Saved ✓"@.len() == 7);
        assert("Enregistré ✓"@ != "Saved ✓"@);
    }
    if key == "failed"@ {
        reveal_strlit("Échec !");
        reveal_strlit("Failed!");
        assert("Échec !"@[0] == 'É' && "Failed!"@[0] == 'F');
        assert("Échec !"@ != "Failed!"@);
    }
    if key == "quit"@ {
        reveal_strlit("Quitter");
        reveal_strlit("Quit");
        assert("Quitter"@.len() == 7 && "Quit"@.len() == 4);
        assert("Quitter"@ != "Quit"@);
    }
    if key == "credits"@ {
        reveal_strlit("Crédits : The Neko Archive Project & Neko (software). Merci à m4keuse (twitch.tv/m4keuse) pour l'idée, inspirée de NekoV2 d'Aqueuse (github.com/Aqueuse/NekoV2).");
        reveal_strlit("Credits: The Neko Archive Project & Neko (software). Thanks to m4keuse (twitch.tv/m4keuse) for the idea, inspired by Aqueuse's NekoV2 (github.com/Aqueuse/NekoV2).");
        assert("Crédits : The Neko Archive Project & Neko (software). Merci à m4keuse (twitch.tv/m4keuse) pour l'idée, inspirée de NekoV2 d'Aqueuse (github.com/Aqueuse/NekoV2)."@.len() == 160 && "Credits: The Neko Archive Project & Neko (software). Thanks to m4keuse (twitch.tv/m4keuse) for the idea, inspired by Aqueuse's NekoV2 (github.com/Aqueuse/NekoV2)."@.len() == 162);
        assert("Crédits : The Neko Archive Project & Neko (software). Merci à m4keuse (twitch.tv/m4keuse) pour l'idée, inspirée de NekoV2 d'Aqueuse (github.com/Aqueuse/NekoV2)."@ != "Credits: The Neko Archive Project & Neko (software). Thanks to m4keuse (twitch.tv/m4keuse) for the idea, inspired by Aqueuse's NekoV2 (github.com/Aqueuse/NekoV2)."@);
    }
}

/// The language follows the first two letters of `LANG`: `fr...` is French, `de...`
/// German, anything else English.
pub proof fn law_language_by_prefix(lang: Seq<char>)
    ensures
        lang.len() >= 2 && lang[0] == 'f' && lang[1] == 'r' ==> language_of(lang) == Language::French,
        lang.len() >= 2 && lang[0] == 'd' && lang[1] == 'e' ==> language_of(lang) == Language::German,
        !(lang.len() >= 2 && lang[0] == 'f' && lang[1] == 'r') && !(lang.len() >= 2 && lang[0] == 'd' && lang[1] == 'e')
            ==> language_of(lang) == Language::English,
{
    reveal_strlit("fr");
    reveal_strlit("de");
    if lang.len() >= 2 {
        let p = lang.subrange(0, 2);
        if lang[0] == 'f' && lang[1] == 'r' {
            assert(p =~= "fr"@);
        }
        if lang[0] == 'd' && lang[1] == 'e' {
            assert(p =~= "de"@);
        }
        if p == "fr"@ {
            assert(p[0] == 'f' && p[1] == 'r');
        }
        if p == "de"@ {
            assert(p[0] == 'd' && p[1] == 'e');
        }
    }
}

/// A key without a translation is shown as it is, in every language.
pub proof fn law_untranslated_key_is_itself(l: Language, key: Seq<char>)
    requires
        key != "dashboard_title"@,
        key != "app_title"@,
        key != "mode"@,
        key != "skin"@,
        key != "toy"@,
        key != "scale"@,
        key != "twitch_channel"@,
        key != "twitch_placeholder"@,
        key != "save_mapping"@,
        key != "close"@,
        key != "sprite_editor"@,
        key != "saved"@,
        key != "failed"@,
        key != "options"@,
        key != "quit"@,
        key != "credits"@,
    ensures
        translation(l, key) == key,
{
}

} // verus!

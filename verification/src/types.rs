//! Keys and modifiers as written in the configuration, and their textual
//! forms. Key codes are those of the Linux input subsystem; the table of key
//! names is evdev's.
use vstd::prelude::*;
use crate::text::{
    is_ws, lemma_case_char, lemma_case_commutes, lemma_trim_of_clean, lemma_name_chars, name_char, chars_of, concat_str, dash_to_underscore, dash_to_underscore_chars, equals_str, has_prefix, lower,
    lower_chars, starts_with_str, string_of, trim, trim_chars, upper, upper_chars,
};

verus! {

/// A key, identified by its Linux input event code.
#[derive(Debug, Clone, Copy, PartialEq, Eq, Structural, Hash)]
pub struct Key(pub u16);

/// A modifier that a rule can require.
#[derive(Debug, Clone, Copy, PartialEq, Eq, Structural, Hash)]
pub enum Modifier {
    Ctrl,
    Alt,
    Shift,
    Super,
}

/// The code that evdev's `KeyCode::from_str` gives for `name`, if any.
pub uninterp spec fn evdev_key_code(name: Seq<char>) -> Option<u16>;

/// The text that evdev's `Debug` impl of `KeyCode` writes for `code`.
pub uninterp spec fn evdev_key_debug(code: u16) -> Seq<char>;

/// A name in the style of evdev's key constants: `KEY_` or `BTN_`, then at
/// least one further character, all of them ASCII capitals, digits or `_`.
pub open spec fn evdev_style_name(s: Seq<char>) -> bool {
    &&& s.len() > 4
    &&& (has_prefix(s, "KEY_"@) || has_prefix(s, "BTN_"@))
    &&& forall|i: int|
        0 <= i < s.len() ==> (('A' <= #[trigger] s[i] && s[i] <= 'Z') || ('0' <= s[i] && s[i]
            <= '9') || s[i] == '_')
}

/// evdev's `KeyCode::from_str`: the code of the key constant named exactly
/// `name`. The result is named by `evdev_key_code`; nothing more is claimed
/// of it here.
#[verifier::external_body]
fn evdev_code_for_name(name: &str) -> (r: Option<u16>)
    ensures
        r == evdev_key_code(name@),
{
    match <evdev::KeyCode as std::str::FromStr>::from_str(name) {
        Ok(k) => Some(k.code()),
        Err(_) => None,
    }
}

/// evdev's `Debug` rendering of `KeyCode::new(code)`: the name of the key
/// constant with that code, or `unknown key: <code>` when there is none.
/// The contract names the text and states two facts that evdev's source
/// shows of a constant's name: `from_str` parses it back to the same code
/// (both walk the same table, in which names are unique), and its shown form
/// reads back to it (no `KEY_` name of the table has a suffix starting with
/// `KEY_` or `BTN_`, or equal to a short alias that names another key).
#[verifier::external_body]
fn evdev_key_name(code: u16) -> (r: String)
    ensures
        r@ == evdev_key_debug(code),
        evdev_style_name(r@) ==> evdev_key_code(r@) == Some(code) && display_round_trips(r@),
{
    format!("{:?}", evdev::KeyCode::new(code))
}

/// The canonical evdev name that a short key name stands for, for the short
/// names that the configuration accepts besides the evdev names themselves.
pub open spec fn key_alias(l: Seq<char>) -> Option<Seq<char>> {
    if l == "esc"@ || l == "escape"@ {
        Some("KEY_ESC"@)
    } else if l == "enter"@ || l == "return"@ {
        Some("KEY_ENTER"@)
    } else if l == "backspace"@ {
        Some("KEY_BACKSPACE"@)
    } else if l == "space"@ {
        Some("KEY_SPACE"@)
    } else if l == "tab"@ {
        Some("KEY_TAB"@)
    } else if l == "delete"@ || l == "del"@ {
        Some("KEY_DELETE"@)
    } else if l == "insert"@ || l == "ins"@ {
        Some("KEY_INSERT"@)
    } else if l == "pageup"@ || l == "page_up"@ || l == "pgup"@ {
        Some("KEY_PAGEUP"@)
    } else if l == "pagedown"@ || l == "page_down"@ || l == "pgdown"@ {
        Some("KEY_PAGEDOWN"@)
    } else if l == "up"@ {
        Some("KEY_UP"@)
    } else if l == "down"@ {
        Some("KEY_DOWN"@)
    } else if l == "left"@ {
        Some("KEY_LEFT"@)
    } else if l == "right"@ {
        Some("KEY_RIGHT"@)
    } else if l == "minus"@ {
        Some("KEY_MINUS"@)
    } else if l == "equal"@ || l == "equals"@ {
        Some("KEY_EQUAL"@)
    } else if l == "comma"@ {
        Some("KEY_COMMA"@)
    } else if l == "dot"@ || l == "period"@ {
        Some("KEY_DOT"@)
    } else if l == "slash"@ {
        Some("KEY_SLASH"@)
    } else if l == "backslash"@ {
        Some("KEY_BACKSLASH"@)
    } else if l == "semicolon"@ {
        Some("KEY_SEMICOLON"@)
    } else if l == "apostrophe"@ || l == "quote"@ {
        Some("KEY_APOSTROPHE"@)
    } else if l == "grave"@ || l == "backtick"@ {
        Some("KEY_GRAVE"@)
    } else if l == "leftbracket"@ || l == "left_bracket"@ {
        Some("KEY_LEFTBRACE"@)
    } else if l == "rightbracket"@ || l == "right_bracket"@ {
        Some("KEY_RIGHTBRACE"@)
    } else {
        None
    }
}

/// The short key aliases that the configuration accepts, each with the evdev
/// name it stands for.
pub open spec fn alias_table() -> Seq<(Seq<char>, Seq<char>)> {
    seq![
        ("esc"@, "KEY_ESC"@),
        ("escape"@, "KEY_ESC"@),
        ("enter"@, "KEY_ENTER"@),
        ("return"@, "KEY_ENTER"@),
        ("backspace"@, "KEY_BACKSPACE"@),
        ("space"@, "KEY_SPACE"@),
        ("tab"@, "KEY_TAB"@),
        ("delete"@, "KEY_DELETE"@),
        ("del"@, "KEY_DELETE"@),
        ("insert"@, "KEY_INSERT"@),
        ("ins"@, "KEY_INSERT"@),
        ("pageup"@, "KEY_PAGEUP"@),
        ("page_up"@, "KEY_PAGEUP"@),
        ("pgup"@, "KEY_PAGEUP"@),
        ("pagedown"@, "KEY_PAGEDOWN"@),
        ("page_down"@, "KEY_PAGEDOWN"@),
        ("pgdown"@, "KEY_PAGEDOWN"@),
        ("up"@, "KEY_UP"@),
        ("down"@, "KEY_DOWN"@),
        ("left"@, "KEY_LEFT"@),
        ("right"@, "KEY_RIGHT"@),
        ("minus"@, "KEY_MINUS"@),
        ("equal"@, "KEY_EQUAL"@),
        ("equals"@, "KEY_EQUAL"@),
        ("comma"@, "KEY_COMMA"@),
        ("dot"@, "KEY_DOT"@),
        ("period"@, "KEY_DOT"@),
        ("slash"@, "KEY_SLASH"@),
        ("backslash"@, "KEY_BACKSLASH"@),
        ("semicolon"@, "KEY_SEMICOLON"@),
        ("apostrophe"@, "KEY_APOSTROPHE"@),
        ("quote"@, "KEY_APOSTROPHE"@),
        ("grave"@, "KEY_GRAVE"@),
        ("backtick"@, "KEY_GRAVE"@),
        ("leftbracket"@, "KEY_LEFTBRACE"@),
        ("left_bracket"@, "KEY_LEFTBRACE"@),
        ("rightbracket"@, "KEY_RIGHTBRACE"@),
        ("right_bracket"@, "KEY_RIGHTBRACE"@),
    ]
}

/// The short aliases are exactly the words of `alias_table`, and each stands
/// for the evdev name listed beside it (so `page_down` and `pgdown` stand
/// for `KEY_PAGEDOWN`, and only `pageup`, `page_up` and `pgup` for
/// `KEY_PAGEUP`).
#[verifier::rlimit(100)]
pub proof fn lemma_alias_table(l: Seq<char>)
    ensures
        key_alias(l) is Some <==> exists|i: int|
            0 <= i < alias_table().len() && (#[trigger] alias_table()[i]).0 == l,
        forall|i: int|
            0 <= i < alias_table().len() && (#[trigger] alias_table()[i]).0 == l ==> key_alias(l)
                == Some(alias_table()[i].1),
{
    assert(alias_table()[0] == ("esc"@, "KEY_ESC"@));
    assert(key_alias("esc"@) == Some("KEY_ESC"@)) by {
        reveal_strlit("esc");
        assert("esc"@.len() == 3);
    }
    assert(alias_table()[1] == ("escape"@, "KEY_ESC"@));
    assert(key_alias("escape"@) == Some("KEY_ESC"@)) by {
        reveal_strlit("escape");
        assert("escape"@.len() == 6);
        reveal_strlit("esc");
        assert("esc"@.len() == 3);
    }
    assert(alias_table()[2] == ("enter"@, "KEY_ENTER"@));
    assert(key_alias("enter"@) == Some("KEY_ENTER"@)) by {
        reveal_strlit("enter");
        assert("enter"@.len() == 5);
        reveal_strlit("esc");
        assert("esc"@.len() == 3);
        reveal_strlit("escape");
        assert("escape"@.len() == 6);
    }
    assert(alias_table()[3] == ("return"@, "KEY_ENTER"@));
    assert(key_alias("return"@) == Some("KEY_ENTER"@)) by {
        reveal_strlit("return");
        assert("return"@.len() == 6);
        reveal_strlit("esc");
        assert("esc"@.len() == 3);
        reveal_strlit("escape");
        assert("escape"@.len() == 6);
        assert("return"@[0] != "escape"@[0]);
        reveal_strlit("enter");
        assert("enter"@.len() == 5);
    }
    assert(alias_table()[4] == ("backspace"@, "KEY_BACKSPACE"@));
    assert(key_alias("backspace"@) == Some("KEY_BACKSPACE"@)) by {
        reveal_strlit("backspace");
        assert("backspace"@.len() == 9);
        reveal_strlit("esc");
        assert("esc"@.len() == 3);
        reveal_strlit("escape");
        assert("escape"@.len() == 6);
        reveal_strlit("enter");
        assert("enter"@.len() == 5);
        reveal_strlit("return");
        assert("return"@.len() == 6);
    }
    assert(alias_table()[5] == ("space"@, "KEY_SPACE"@));
    assert(key_alias("space"@) == Some("KEY_SPACE"@)) by {
        reveal_strlit("space");
        assert("space"@.len() == 5);
        reveal_strlit("esc");
        assert("esc"@.len() == 3);
        reveal_strlit("escape");
        assert("escape"@.len() == 6);
        reveal_strlit("enter");
        assert("enter"@.len() == 5);
        assert("space"@[0] != "enter"@[0]);
        reveal_strlit("return");
        assert("return"@.len() == 6);
        reveal_strlit("backspace");
        assert("backspace"@.len() == 9);
    }
    assert(alias_table()[6] == ("tab"@, "KEY_TAB"@));
    assert(key_alias("tab"@) == Some("KEY_TAB"@)) by {
        reveal_strlit("tab");
        assert("tab"@.len() == 3);
        reveal_strlit("esc");
        assert("esc"@.len() == 3);
        assert("tab"@[0] != "esc"@[0]);
        reveal_strlit("escape");
        assert("escape"@.len() == 6);
        reveal_strlit("enter");
        assert("enter"@.len() == 5);
        reveal_strlit("return");
        assert("return"@.len() == 6);
        reveal_strlit("backspace");
        assert("backspace"@.len() == 9);
        reveal_strlit("space");
        assert("space"@.len() == 5);
    }
    assert(alias_table()[7] == ("delete"@, "KEY_DELETE"@));
    assert(key_alias("delete"@) == Some("KEY_DELETE"@)) by {
        reveal_strlit("delete");
        assert("delete"@.len() == 6);
        reveal_strlit("esc");
        assert("esc"@.len() == 3);
        reveal_strlit("escape");
        assert("escape"@.len() == 6);
        assert("delete"@[0] != "escape"@[0]);
        reveal_strlit("enter");
        assert("enter"@.len() == 5);
        reveal_strlit("return");
        assert("return"@.len() == 6);
        assert("delete"@[0] != "return"@[0]);
        reveal_strlit("backspace");
        assert("backspace"@.len() == 9);
        reveal_strlit("space");
        assert("space"@.len() == 5);
        reveal_strlit("tab");
        assert("tab"@.len() == 3);
    }
    assert(alias_table()[8] == ("del"@, "KEY_DELETE"@));
    assert(key_alias("del"@) == Some("KEY_DELETE"@)) by {
        reveal_strlit("del");
        assert("del"@.len() == 3);
        reveal_strlit("esc");
        assert("esc"@.len() == 3);
        assert("del"@[0] != "esc"@[0]);
        reveal_strlit("escape");
        assert("escape"@.len() == 6);
        reveal_strlit("enter");
        assert("enter"@.len() == 5);
        reveal_strlit("return");
        assert("return"@.len() == 6);
        reveal_strlit("backspace");
        assert("backspace"@.len() == 9);
        reveal_strlit("space");
        assert("space"@.len() == 5);
        reveal_strlit("tab");
        assert("tab"@.len() == 3);
        assert("del"@[0] != "tab"@[0]);
        reveal_strlit("delete");
        assert("delete"@.len() == 6);
    }
    assert(alias_table()[9] == ("insert"@, "KEY_INSERT"@));
    assert(key_alias("insert"@) == Some("KEY_INSERT"@)) by {
        reveal_strlit("insert");
        assert("insert"@.len() == 6);
        reveal_strlit("esc");
        assert("esc"@.len() == 3);
        reveal_strlit("escape");
        assert("escape"@.len() == 6);
        assert("insert"@[0] != "escape"@[0]);
        reveal_strlit("enter");
        assert("enter"@.len() == 5);
        reveal_strlit("return");
        assert("return"@.len() == 6);
        assert("insert"@[0] != "return"@[0]);
        reveal_strlit("backspace");
        assert("backspace"@.len() == 9);
        reveal_strlit("space");
        assert("space"@.len() == 5);
        reveal_strlit("tab");
        assert("tab"@.len() == 3);
        reveal_strlit("delete");
        assert("delete"@.len() == 6);
        assert("insert"@[0] != "delete"@[0]);
        reveal_strlit("del");
        assert("del"@.len() == 3);
    }
    assert(alias_table()[10] == ("ins"@, "KEY_INSERT"@));
    assert(key_alias("ins"@) == Some("KEY_INSERT"@)) by {
        reveal_strlit("ins");
        assert("ins"@.len() == 3);
        reveal_strlit("esc");
        assert("esc"@.len() == 3);
        assert("ins"@[0] != "esc"@[0]);
        reveal_strlit("escape");
        assert("escape"@.len() == 6);
        reveal_strlit("enter");
        assert("enter"@.len() == 5);
        reveal_strlit("return");
        assert("return"@.len() == 6);
        reveal_strlit("backspace");
        assert("backspace"@.len() == 9);
        reveal_strlit("space");
        assert("space"@.len() == 5);
        reveal_strlit("tab");
        assert("tab"@.len() == 3);
        assert("ins"@[0] != "tab"@[0]);
        reveal_strlit("delete");
        assert("delete"@.len() == 6);
        reveal_strlit("del");
        assert("del"@.len() == 3);
        assert("ins"@[0] != "del"@[0]);
        reveal_strlit("insert");
        assert("insert"@.len() == 6);
    }
    assert(alias_table()[11] == ("pageup"@, "KEY_PAGEUP"@));
    assert(key_alias("pageup"@) == Some("KEY_PAGEUP"@)) by {
        reveal_strlit("pageup");
        assert("pageup"@.len() == 6);
        reveal_strlit("esc");
        assert("esc"@.len() == 3);
        reveal_strlit("escape");
        assert("escape"@.len() == 6);
        assert("pageup"@[0] != "escape"@[0]);
        reveal_strlit("enter");
        assert("enter"@.len() == 5);
        reveal_strlit("return");
        assert("return"@.len() == 6);
        assert("pageup"@[0] != "return"@[0]);
        reveal_strlit("backspace");
        assert("backspace"@.len() == 9);
        reveal_strlit("space");
        assert("space"@.len() == 5);
        reveal_strlit("tab");
        assert("tab"@.len() == 3);
        reveal_strlit("delete");
        assert("delete"@.len() == 6);
        assert("pageup"@[0] != "delete"@[0]);
        reveal_strlit("del");
        assert("del"@.len() == 3);
        reveal_strlit("insert");
        assert("insert"@.len() == 6);
        assert("pageup"@[0] != "insert"@[0]);
        reveal_strlit("ins");
        assert("ins"@.len() == 3);
    }
    assert(alias_table()[12] == ("page_up"@, "KEY_PAGEUP"@));
    assert(key_alias("page_up"@) == Some("KEY_PAGEUP"@)) by {
        reveal_strlit("page_up");
        assert("page_up"@.len() == 7);
        reveal_strlit("esc");
        assert("esc"@.len() == 3);
        reveal_strlit("escape");
        assert("escape"@.len() == 6);
        reveal_strlit("enter");
        assert("enter"@.len() == 5);
        reveal_strlit("return");
        assert("return"@.len() == 6);
        reveal_strlit("backspace");
        assert("backspace"@.len() == 9);
        reveal_strlit("space");
        assert("space"@.len() == 5);
        reveal_strlit("tab");
        assert("tab"@.len() == 3);
        reveal_strlit("delete");
        assert("delete"@.len() == 6);
        reveal_strlit("del");
        assert("del"@.len() == 3);
        reveal_strlit("insert");
        assert("insert"@.len() == 6);
        reveal_strlit("ins");
        assert("ins"@.len() == 3);
        reveal_strlit("pageup");
        assert("pageup"@.len() == 6);
    }
    assert(alias_table()[13] == ("pgup"@, "KEY_PAGEUP"@));
    assert(key_alias("pgup"@) == Some("KEY_PAGEUP"@)) by {
        reveal_strlit("pgup");
        assert("pgup"@.len() == 4);
        reveal_strlit("esc");
        assert("esc"@.len() == 3);
        reveal_strlit("escape");
        assert("escape"@.len() == 6);
        reveal_strlit("enter");
        assert("enter"@.len() == 5);
        reveal_strlit("return");
        assert("return"@.len() == 6);
        reveal_strlit("backspace");
        assert("backspace"@.len() == 9);
        reveal_strlit("space");
        assert("space"@.len() == 5);
        reveal_strlit("tab");
        assert("tab"@.len() == 3);
        reveal_strlit("delete");
        assert("delete"@.len() == 6);
        reveal_strlit("del");
        assert("del"@.len() == 3);
        reveal_strlit("insert");
        assert("insert"@.len() == 6);
        reveal_strlit("ins");
        assert("ins"@.len() == 3);
        reveal_strlit("pageup");
        assert("pageup"@.len() == 6);
        reveal_strlit("page_up");
        assert("page_up"@.len() == 7);
    }
    assert(alias_table()[14] == ("pagedown"@, "KEY_PAGEDOWN"@));
    assert(key_alias("pagedown"@) == Some("KEY_PAGEDOWN"@)) by {
        reveal_strlit("pagedown");
        assert("pagedown"@.len() == 8);
        reveal_strlit("esc");
        assert("esc"@.len() == 3);
        reveal_strlit("escape");
        assert("escape"@.len() == 6);
        reveal_strlit("enter");
        assert("enter"@.len() == 5);
        reveal_strlit("return");
        assert("return"@.len() == 6);
        reveal_strlit("backspace");
        assert("backspace"@.len() == 9);
        reveal_strlit("space");
        assert("space"@.len() == 5);
        reveal_strlit("tab");
        assert("tab"@.len() == 3);
        reveal_strlit("delete");
        assert("delete"@.len() == 6);
        reveal_strlit("del");
        assert("del"@.len() == 3);
        reveal_strlit("insert");
        assert("insert"@.len() == 6);
        reveal_strlit("ins");
        assert("ins"@.len() == 3);
        reveal_strlit("pageup");
        assert("pageup"@.len() == 6);
        reveal_strlit("page_up");
        assert("page_up"@.len() == 7);
        reveal_strlit("pgup");
        assert("pgup"@.len() == 4);
    }
    assert(alias_table()[15] == ("page_down"@, "KEY_PAGEDOWN"@));
    assert(key_alias("page_down"@) == Some("KEY_PAGEDOWN"@)) by {
        reveal_strlit("page_down");
        assert("page_down"@.len() == 9);
        reveal_strlit("esc");
        assert("esc"@.len() == 3);
        reveal_strlit("escape");
        assert("escape"@.len() == 6);
        reveal_strlit("enter");
        assert("enter"@.len() == 5);
        reveal_strlit("return");
        assert("return"@.len() == 6);
        reveal_strlit("backspace");
        assert("backspace"@.len() == 9);
        assert("page_down"@[0] != "backspace"@[0]);
        reveal_strlit("space");
        assert("space"@.len() == 5);
        reveal_strlit("tab");
        assert("tab"@.len() == 3);
        reveal_strlit("delete");
        assert("delete"@.len() == 6);
        reveal_strlit("del");
        assert("del"@.len() == 3);
        reveal_strlit("insert");
        assert("insert"@.len() == 6);
        reveal_strlit("ins");
        assert("ins"@.len() == 3);
        reveal_strlit("pageup");
        assert("pageup"@.len() == 6);
        reveal_strlit("page_up");
        assert("page_up"@.len() == 7);
        reveal_strlit("pgup");
        assert("pgup"@.len() == 4);
        reveal_strlit("pagedown");
        assert("pagedown"@.len() == 8);
    }
    assert(alias_table()[16] == ("pgdown"@, "KEY_PAGEDOWN"@));
    assert(key_alias("pgdown"@) == Some("KEY_PAGEDOWN"@)) by {
        reveal_strlit("pgdown");
        assert("pgdown"@.len() == 6);
        reveal_strlit("esc");
        assert("esc"@.len() == 3);
        reveal_strlit("escape");
        assert("escape"@.len() == 6);
        assert("pgdown"@[0] != "escape"@[0]);
        reveal_strlit("enter");
        assert("enter"@.len() == 5);
        reveal_strlit("return");
        assert("return"@.len() == 6);
        assert("pgdown"@[0] != "return"@[0]);
        reveal_strlit("backspace");
        assert("backspace"@.len() == 9);
        reveal_strlit("space");
        assert("space"@.len() == 5);
        reveal_strlit("tab");
        assert("tab"@.len() == 3);
        reveal_strlit("delete");
        assert("delete"@.len() == 6);
        assert("pgdown"@[0] != "delete"@[0]);
        reveal_strlit("del");
        assert("del"@.len() == 3);
        reveal_strlit("insert");
        assert("insert"@.len() == 6);
        assert("pgdown"@[0] != "insert"@[0]);
        reveal_strlit("ins");
        assert("ins"@.len() == 3);
        reveal_strlit("pageup");
        assert("pageup"@.len() == 6);
        assert("pgdown"@[1] != "pageup"@[1]);
        reveal_strlit("page_up");
        assert("page_up"@.len() == 7);
        reveal_strlit("pgup");
        assert("pgup"@.len() == 4);
        reveal_strlit("pagedown");
        assert("pagedown"@.len() == 8);
        reveal_strlit("page_down");
        assert("page_down"@.len() == 9);
    }
    assert(alias_table()[17] == ("up"@, "KEY_UP"@));
    assert(key_alias("up"@) == Some("KEY_UP"@)) by {
        reveal_strlit("up");
        assert("up"@.len() == 2);
        reveal_strlit("esc");
        assert("esc"@.len() == 3);
        reveal_strlit("escape");
        assert("escape"@.len() == 6);
        reveal_strlit("enter");
        assert("enter"@.len() == 5);
        reveal_strlit("return");
        assert("return"@.len() == 6);
        reveal_strlit("backspace");
        assert("backspace"@.len() == 9);
        reveal_strlit("space");
        assert("space"@.len() == 5);
        reveal_strlit("tab");
        assert("tab"@.len() == 3);
        reveal_strlit("delete");
        assert("delete"@.len() == 6);
        reveal_strlit("del");
        assert("del"@.len() == 3);
        reveal_strlit("insert");
        assert("insert"@.len() == 6);
        reveal_strlit("ins");
        assert("ins"@.len() == 3);
        reveal_strlit("pageup");
        assert("pageup"@.len() == 6);
        reveal_strlit("page_up");
        assert("page_up"@.len() == 7);
        reveal_strlit("pgup");
        assert("pgup"@.len() == 4);
        reveal_strlit("pagedown");
        assert("pagedown"@.len() == 8);
        reveal_strlit("page_down");
        assert("page_down"@.len() == 9);
        reveal_strlit("pgdown");
        assert("pgdown"@.len() == 6);
    }
    assert(alias_table()[18] == ("down"@, "KEY_DOWN"@));
    assert(key_alias("down"@) == Some("KEY_DOWN"@)) by {
        reveal_strlit("down");
        assert("down"@.len() == 4);
        reveal_strlit("esc");
        assert("esc"@.len() == 3);
        reveal_strlit("escape");
        assert("escape"@.len() == 6);
        reveal_strlit("enter");
        assert("enter"@.len() == 5);
        reveal_strlit("return");
        assert("return"@.len() == 6);
        reveal_strlit("backspace");
        assert("backspace"@.len() == 9);
        reveal_strlit("space");
        assert("space"@.len() == 5);
        reveal_strlit("tab");
        assert("tab"@.len() == 3);
        reveal_strlit("delete");
        assert("delete"@.len() == 6);
        reveal_strlit("del");
        assert("del"@.len() == 3);
        reveal_strlit("insert");
        assert("insert"@.len() == 6);
        reveal_strlit("ins");
        assert("ins"@.len() == 3);
        reveal_strlit("pageup");
        assert("pageup"@.len() == 6);
        reveal_strlit("page_up");
        assert("page_up"@.len() == 7);
        reveal_strlit("pgup");
        assert("pgup"@.len() == 4);
        assert("down"@[0] != "pgup"@[0]);
        reveal_strlit("pagedown");
        assert("pagedown"@.len() == 8);
        reveal_strlit("page_down");
        assert("page_down"@.len() == 9);
        reveal_strlit("pgdown");
        assert("pgdown"@.len() == 6);
        reveal_strlit("up");
        assert("up"@.len() == 2);
    }
    assert(alias_table()[19] == ("left"@, "KEY_LEFT"@));
    assert(key_alias("left"@) == Some("KEY_LEFT"@)) by {
        reveal_strlit("left");
        assert("left"@.len() == 4);
        reveal_strlit("esc");
        assert("esc"@.len() == 3);
        reveal_strlit("escape");
        assert("escape"@.len() == 6);
        reveal_strlit("enter");
        assert("enter"@.len() == 5);
        reveal_strlit("return");
        assert("return"@.len() == 6);
        reveal_strlit("backspace");
        assert("backspace"@.len() == 9);
        reveal_strlit("space");
        assert("space"@.len() == 5);
        reveal_strlit("tab");
        assert("tab"@.len() == 3);
        reveal_strlit("delete");
        assert("delete"@.len() == 6);
        reveal_strlit("del");
        assert("del"@.len() == 3);
        reveal_strlit("insert");
        assert("insert"@.len() == 6);
        reveal_strlit("ins");
        assert("ins"@.len() == 3);
        reveal_strlit("pageup");
        assert("pageup"@.len() == 6);
        reveal_strlit("page_up");
        assert("page_up"@.len() == 7);
        reveal_strlit("pgup");
        assert("pgup"@.len() == 4);
        assert("left"@[0] != "pgup"@[0]);
        reveal_strlit("pagedown");
        assert("pagedown"@.len() == 8);
        reveal_strlit("page_down");
        assert("page_down"@.len() == 9);
        reveal_strlit("pgdown");
        assert("pgdown"@.len() == 6);
        reveal_strlit("up");
        assert("up"@.len() == 2);
        reveal_strlit("down");
        assert("down"@.len() == 4);
        assert("left"@[0] != "down"@[0]);
    }
    assert(alias_table()[20] == ("right"@, "KEY_RIGHT"@));
    assert(key_alias("right"@) == Some("KEY_RIGHT"@)) by {
        reveal_strlit("right");
        assert("right"@.len() == 5);
        reveal_strlit("esc");
        assert("esc"@.len() == 3);
        reveal_strlit("escape");
        assert("escape"@.len() == 6);
        reveal_strlit("enter");
        assert("enter"@.len() == 5);
        assert("right"@[0] != "enter"@[0]);
        reveal_strlit("return");
        assert("return"@.len() == 6);
        reveal_strlit("backspace");
        assert("backspace"@.len() == 9);
        reveal_strlit("space");
        assert("space"@.len() == 5);
        assert("right"@[0] != "space"@[0]);
        reveal_strlit("tab");
        assert("tab"@.len() == 3);
        reveal_strlit("delete");
        assert("delete"@.len() == 6);
        reveal_strlit("del");
        assert("del"@.len() == 3);
        reveal_strlit("insert");
        assert("insert"@.len() == 6);
        reveal_strlit("ins");
        assert("ins"@.len() == 3);
        reveal_strlit("pageup");
        assert("pageup"@.len() == 6);
        reveal_strlit("page_up");
        assert("page_up"@.len() == 7);
        reveal_strlit("pgup");
        assert("pgup"@.len() == 4);
        reveal_strlit("pagedown");
        assert("pagedown"@.len() == 8);
        reveal_strlit("page_down");
        assert("page_down"@.len() == 9);
        reveal_strlit("pgdown");
        assert("pgdown"@.len() == 6);
        reveal_strlit("up");
        assert("up"@.len() == 2);
        reveal_strlit("down");
        assert("down"@.len() == 4);
        reveal_strlit("left");
        assert("left"@.len() == 4);
    }
    assert(alias_table()[21] == ("minus"@, "KEY_MINUS"@));
    assert(key_alias("minus"@) == Some("KEY_MINUS"@)) by {
        reveal_strlit("minus");
        assert("minus"@.len() == 5);
        reveal_strlit("esc");
        assert("esc"@.len() == 3);
        reveal_strlit("escape");
        assert("escape"@.len() == 6);
        reveal_strlit("enter");
        assert("enter"@.len() == 5);
        assert("minus"@[0] != "enter"@[0]);
        reveal_strlit("return");
        assert("return"@.len() == 6);
        reveal_strlit("backspace");
        assert("backspace"@.len() == 9);
        reveal_strlit("space");
        assert("space"@.len() == 5);
        assert("minus"@[0] != "space"@[0]);
        reveal_strlit("tab");
        assert("tab"@.len() == 3);
        reveal_strlit("delete");
        assert("delete"@.len() == 6);
        reveal_strlit("del");
        assert("del"@.len() == 3);
        reveal_strlit("insert");
        assert("insert"@.len() == 6);
        reveal_strlit("ins");
        assert("ins"@.len() == 3);
        reveal_strlit("pageup");
        assert("pageup"@.len() == 6);
        reveal_strlit("page_up");
        assert("page_up"@.len() == 7);
        reveal_strlit("pgup");
        assert("pgup"@.len() == 4);
        reveal_strlit("pagedown");
        assert("pagedown"@.len() == 8);
        reveal_strlit("page_down");
        assert("page_down"@.len() == 9);
        reveal_strlit("pgdown");
        assert("pgdown"@.len() == 6);
        reveal_strlit("up");
        assert("up"@.len() == 2);
        reveal_strlit("down");
        assert("down"@.len() == 4);
        reveal_strlit("left");
        assert("left"@.len() == 4);
        reveal_strlit("right");
        assert("right"@.len() == 5);
        assert("minus"@[0] != "right"@[0]);
    }
    assert(alias_table()[22] == ("equal"@, "KEY_EQUAL"@));
    assert(key_alias("equal"@) == Some("KEY_EQUAL"@)) by {
        reveal_strlit("equal");
        assert("equal"@.len() == 5);
        reveal_strlit("esc");
        assert("esc"@.len() == 3);
        reveal_strlit("escape");
        assert("escape"@.len() == 6);
        reveal_strlit("enter");
        assert("enter"@.len() == 5);
        assert("equal"@[1] != "enter"@[1]);
        reveal_strlit("return");
        assert("return"@.len() == 6);
        reveal_strlit("backspace");
        assert("backspace"@.len() == 9);
        reveal_strlit("space");
        assert("space"@.len() == 5);
        assert("equal"@[0] != "space"@[0]);
        reveal_strlit("tab");
        assert("tab"@.len() == 3);
        reveal_strlit("delete");
        assert("delete"@.len() == 6);
        reveal_strlit("del");
        assert("del"@.len() == 3);
        reveal_strlit("insert");
        assert("insert"@.len() == 6);
        reveal_strlit("ins");
        assert("ins"@.len() == 3);
        reveal_strlit("pageup");
        assert("pageup"@.len() == 6);
        reveal_strlit("page_up");
        assert("page_up"@.len() == 7);
        reveal_strlit("pgup");
        assert("pgup"@.len() == 4);
        reveal_strlit("pagedown");
        assert("pagedown"@.len() == 8);
        reveal_strlit("page_down");
        assert("page_down"@.len() == 9);
        reveal_strlit("pgdown");
        assert("pgdown"@.len() == 6);
        reveal_strlit("up");
        assert("up"@.len() == 2);
        reveal_strlit("down");
        assert("down"@.len() == 4);
        reveal_strlit("left");
        assert("left"@.len() == 4);
        reveal_strlit("right");
        assert("right"@.len() == 5);
        assert("equal"@[0] != "right"@[0]);
        reveal_strlit("minus");
        assert("minus"@.len() == 5);
        assert("equal"@[0] != "minus"@[0]);
    }
    assert(alias_table()[23] == ("equals"@, "KEY_EQUAL"@));
    assert(key_alias("equals"@) == Some("KEY_EQUAL"@)) by {
        reveal_strlit("equals");
        assert("equals"@.len() == 6);
        reveal_strlit("esc");
        assert("esc"@.len() == 3);
        reveal_strlit("escape");
        assert("escape"@.len() == 6);
        assert("equals"@[1] != "escape"@[1]);
        reveal_strlit("enter");
        assert("enter"@.len() == 5);
        reveal_strlit("return");
        assert("return"@.len() == 6);
        assert("equals"@[0] != "return"@[0]);
        reveal_strlit("backspace");
        assert("backspace"@.len() == 9);
        reveal_strlit("space");
        assert("space"@.len() == 5);
        reveal_strlit("tab");
        assert("tab"@.len() == 3);
        reveal_strlit("delete");
        assert("delete"@.len() == 6);
        assert("equals"@[0] != "delete"@[0]);
        reveal_strlit("del");
        assert("del"@.len() == 3);
        reveal_strlit("insert");
        assert("insert"@.len() == 6);
        assert("equals"@[0] != "insert"@[0]);
        reveal_strlit("ins");
        assert("ins"@.len() == 3);
        reveal_strlit("pageup");
        assert("pageup"@.len() == 6);
        assert("equals"@[0] != "pageup"@[0]);
        reveal_strlit("page_up");
        assert("page_up"@.len() == 7);
        reveal_strlit("pgup");
        assert("pgup"@.len() == 4);
        reveal_strlit("pagedown");
        assert("pagedown"@.len() == 8);
        reveal_strlit("page_down");
        assert("page_down"@.len() == 9);
        reveal_strlit("pgdown");
        assert("pgdown"@.len() == 6);
        assert("equals"@[0] != "pgdown"@[0]);
        reveal_strlit("up");
        assert("up"@.len() == 2);
        reveal_strlit("down");
        assert("down"@.len() == 4);
        reveal_strlit("left");
        assert("left"@.len() == 4);
        reveal_strlit("right");
        assert("right"@.len() == 5);
        reveal_strlit("minus");
        assert("minus"@.len() == 5);
        reveal_strlit("equal");
        assert("equal"@.len() == 5);
    }
    assert(alias_table()[24] == ("comma"@, "KEY_COMMA"@));
    assert(key_alias("comma"@) == Some("KEY_COMMA"@)) by {
        reveal_strlit("comma");
        assert("comma"@.len() == 5);
        reveal_strlit("esc");
        assert("esc"@.len() == 3);
        reveal_strlit("escape");
        assert("escape"@.len() == 6);
        reveal_strlit("enter");
        assert("enter"@.len() == 5);
        assert("comma"@[0] != "enter"@[0]);
        reveal_strlit("return");
        assert("return"@.len() == 6);
        reveal_strlit("backspace");
        assert("backspace"@.len() == 9);
        reveal_strlit("space");
        assert("space"@.len() == 5);
        assert("comma"@[0] != "space"@[0]);
        reveal_strlit("tab");
        assert("tab"@.len() == 3);
        reveal_strlit("delete");
        assert("delete"@.len() == 6);
        reveal_strlit("del");
        assert("del"@.len() == 3);
        reveal_strlit("insert");
        assert("insert"@.len() == 6);
        reveal_strlit("ins");
        assert("ins"@.len() == 3);
        reveal_strlit("pageup");
        assert("pageup"@.len() == 6);
        reveal_strlit("page_up");
        assert("page_up"@.len() == 7);
        reveal_strlit("pgup");
        assert("pgup"@.len() == 4);
        reveal_strlit("pagedown");
        assert("pagedown"@.len() == 8);
        reveal_strlit("page_down");
        assert("page_down"@.len() == 9);
        reveal_strlit("pgdown");
        assert("pgdown"@.len() == 6);
        reveal_strlit("up");
        assert("up"@.len() == 2);
        reveal_strlit("down");
        assert("down"@.len() == 4);
        reveal_strlit("left");
        assert("left"@.len() == 4);
        reveal_strlit("right");
        assert("right"@.len() == 5);
        assert("comma"@[0] != "right"@[0]);
        reveal_strlit("minus");
        assert("minus"@.len() == 5);
        assert("comma"@[0] != "minus"@[0]);
        reveal_strlit("equal");
        assert("equal"@.len() == 5);
        assert("comma"@[0] != "equal"@[0]);
        reveal_strlit("equals");
        assert("equals"@.len() == 6);
    }
    assert(alias_table()[25] == ("dot"@, "KEY_DOT"@));
    assert(key_alias("dot"@) == Some("KEY_DOT"@)) by {
        reveal_strlit("dot");
        assert("dot"@.len() == 3);
        reveal_strlit("esc");
        assert("esc"@.len() == 3);
        assert("dot"@[0] != "esc"@[0]);
        reveal_strlit("escape");
        assert("escape"@.len() == 6);
        reveal_strlit("enter");
        assert("enter"@.len() == 5);
        reveal_strlit("return");
        assert("return"@.len() == 6);
        reveal_strlit("backspace");
        assert("backspace"@.len() == 9);
        reveal_strlit("space");
        assert("space"@.len() == 5);
        reveal_strlit("tab");
        assert("tab"@.len() == 3);
        assert("dot"@[0] != "tab"@[0]);
        reveal_strlit("delete");
        assert("delete"@.len() == 6);
        reveal_strlit("del");
        assert("del"@.len() == 3);
        assert("dot"@[1] != "del"@[1]);
        reveal_strlit("insert");
        assert("insert"@.len() == 6);
        reveal_strlit("ins");
        assert("ins"@.len() == 3);
        assert("dot"@[0] != "ins"@[0]);
        reveal_strlit("pageup");
        assert("pageup"@.len() == 6);
        reveal_strlit("page_up");
        assert("page_up"@.len() == 7);
        reveal_strlit("pgup");
        assert("pgup"@.len() == 4);
        reveal_strlit("pagedown");
        assert("pagedown"@.len() == 8);
        reveal_strlit("page_down");
        assert("page_down"@.len() == 9);
        reveal_strlit("pgdown");
        assert("pgdown"@.len() == 6);
        reveal_strlit("up");
        assert("up"@.len() == 2);
        reveal_strlit("down");
        assert("down"@.len() == 4);
        reveal_strlit("left");
        assert("left"@.len() == 4);
        reveal_strlit("right");
        assert("right"@.len() == 5);
        reveal_strlit("minus");
        assert("minus"@.len() == 5);
        reveal_strlit("equal");
        assert("equal"@.len() == 5);
        reveal_strlit("equals");
        assert("equals"@.len() == 6);
        reveal_strlit("comma");
        assert("comma"@.len() == 5);
    }
    assert(alias_table()[26] == ("period"@, "KEY_DOT"@));
    assert(key_alias("period"@) == Some("KEY_DOT"@)) by {
        reveal_strlit("period");
        assert("period"@.len() == 6);
        reveal_strlit("esc");
        assert("esc"@.len() == 3);
        reveal_strlit("escape");
        assert("escape"@.len() == 6);
        assert("period"@[0] != "escape"@[0]);
        reveal_strlit("enter");
        assert("enter"@.len() == 5);
        reveal_strlit("return");
        assert("return"@.len() == 6);
        assert("period"@[0] != "return"@[0]);
        reveal_strlit("backspace");
        assert("backspace"@.len() == 9);
        reveal_strlit("space");
        assert("space"@.len() == 5);
        reveal_strlit("tab");
        assert("tab"@.len() == 3);
        reveal_strlit("delete");
        assert("delete"@.len() == 6);
        assert("period"@[0] != "delete"@[0]);
        reveal_strlit("del");
        assert("del"@.len() == 3);
        reveal_strlit("insert");
        assert("insert"@.len() == 6);
        assert("period"@[0] != "insert"@[0]);
        reveal_strlit("ins");
        assert("ins"@.len() == 3);
        reveal_strlit("pageup");
        assert("pageup"@.len() == 6);
        assert("period"@[1] != "pageup"@[1]);
        reveal_strlit("page_up");
        assert("page_up"@.len() == 7);
        reveal_strlit("pgup");
        assert("pgup"@.len() == 4);
        reveal_strlit("pagedown");
        assert("pagedown"@.len() == 8);
        reveal_strlit("page_down");
        assert("page_down"@.len() == 9);
        reveal_strlit("pgdown");
        assert("pgdown"@.len() == 6);
        assert("period"@[1] != "pgdown"@[1]);
        reveal_strlit("up");
        assert("up"@.len() == 2);
        reveal_strlit("down");
        assert("down"@.len() == 4);
        reveal_strlit("left");
        assert("left"@.len() == 4);
        reveal_strlit("right");
        assert("right"@.len() == 5);
        reveal_strlit("minus");
        assert("minus"@.len() == 5);
        reveal_strlit("equal");
        assert("equal"@.len() == 5);
        reveal_strlit("equals");
        assert("equals"@.len() == 6);
        assert("period"@[0] != "equals"@[0]);
        reveal_strlit("comma");
        assert("comma"@.len() == 5);
        reveal_strlit("dot");
        assert("dot"@.len() == 3);
    }
    assert(alias_table()[27] == ("slash"@, "KEY_SLASH"@));
    assert(key_alias("slash"@) == Some("KEY_SLASH"@)) by {
        reveal_strlit("slash");
        assert("slash"@.len() == 5);
        reveal_strlit("esc");
        assert("esc"@.len() == 3);
        reveal_strlit("escape");
        assert("escape"@.len() == 6);
        reveal_strlit("enter");
        assert("enter"@.len() == 5);
        assert("slash"@[0] != "enter"@[0]);
        reveal_strlit("return");
        assert("return"@.len() == 6);
        reveal_strlit("backspace");
        assert("backspace"@.len() == 9);
        reveal_strlit("space");
        assert("space"@.len() == 5);
        assert("slash"@[1] != "space"@[1]);
        reveal_strlit("tab");
        assert("tab"@.len() == 3);
        reveal_strlit("delete");
        assert("delete"@.len() == 6);
        reveal_strlit("del");
        assert("del"@.len() == 3);
        reveal_strlit("insert");
        assert("insert"@.len() == 6);
        reveal_strlit("ins");
        assert("ins"@.len() == 3);
        reveal_strlit("pageup");
        assert("pageup"@.len() == 6);
        reveal_strlit("page_up");
        assert("page_up"@.len() == 7);
        reveal_strlit("pgup");
        assert("pgup"@.len() == 4);
        reveal_strlit("pagedown");
        assert("pagedown"@.len() == 8);
        reveal_strlit("page_down");
        assert("page_down"@.len() == 9);
        reveal_strlit("pgdown");
        assert("pgdown"@.len() == 6);
        reveal_strlit("up");
        assert("up"@.len() == 2);
        reveal_strlit("down");
        assert("down"@.len() == 4);
        reveal_strlit("left");
        assert("left"@.len() == 4);
        reveal_strlit("right");
        assert("right"@.len() == 5);
        assert("slash"@[0] != "right"@[0]);
        reveal_strlit("minus");
        assert("minus"@.len() == 5);
        assert("slash"@[0] != "minus"@[0]);
        reveal_strlit("equal");
        assert("equal"@.len() == 5);
        assert("slash"@[0] != "equal"@[0]);
        reveal_strlit("equals");
        assert("equals"@.len() == 6);
        reveal_strlit("comma");
        assert("comma"@.len() == 5);
        assert("slash"@[0] != "comma"@[0]);
        reveal_strlit("dot");
        assert("dot"@.len() == 3);
        reveal_strlit("period");
        assert("period"@.len() == 6);
    }
    assert(alias_table()[28] == ("backslash"@, "KEY_BACKSLASH"@));
    assert(key_alias("backslash"@) == Some("KEY_BACKSLASH"@)) by {
        reveal_strlit("backslash");
        assert("backslash"@.len() == 9);
        reveal_strlit("esc");
        assert("esc"@.len() == 3);
        reveal_strlit("escape");
        assert("escape"@.len() == 6);
        reveal_strlit("enter");
        assert("enter"@.len() == 5);
        reveal_strlit("return");
        assert("return"@.len() == 6);
        reveal_strlit("backspace");
        assert("backspace"@.len() == 9);
        assert("backslash"@[5] != "backspace"@[5]);
        reveal_strlit("space");
        assert("space"@.len() == 5);
        reveal_strlit("tab");
        assert("tab"@.len() == 3);
        reveal_strlit("delete");
        assert("delete"@.len() == 6);
        reveal_strlit("del");
        assert("del"@.len() == 3);
        reveal_strlit("insert");
        assert("insert"@.len() == 6);
        reveal_strlit("ins");
        assert("ins"@.len() == 3);
        reveal_strlit("pageup");
        assert("pageup"@.len() == 6);
        reveal_strlit("page_up");
        assert("page_up"@.len() == 7);
        reveal_strlit("pgup");
        assert("pgup"@.len() == 4);
        reveal_strlit("pagedown");
        assert("pagedown"@.len() == 8);
        reveal_strlit("page_down");
        assert("page_down"@.len() == 9);
        assert("backslash"@[0] != "page_down"@[0]);
        reveal_strlit("pgdown");
        assert("pgdown"@.len() == 6);
        reveal_strlit("up");
        assert("up"@.len() == 2);
        reveal_strlit("down");
        assert("down"@.len() == 4);
        reveal_strlit("left");
        assert("left"@.len() == 4);
        reveal_strlit("right");
        assert("right"@.len() == 5);
        reveal_strlit("minus");
        assert("minus"@.len() == 5);
        reveal_strlit("equal");
        assert("equal"@.len() == 5);
        reveal_strlit("equals");
        assert("equals"@.len() == 6);
        reveal_strlit("comma");
        assert("comma"@.len() == 5);
        reveal_strlit("dot");
        assert("dot"@.len() == 3);
        reveal_strlit("period");
        assert("period"@.len() == 6);
        reveal_strlit("slash");
        assert("slash"@.len() == 5);
    }
    assert(alias_table()[29] == ("semicolon"@, "KEY_SEMICOLON"@));
    assert(key_alias("semicolon"@) == Some("KEY_SEMICOLON"@)) by {
        reveal_strlit("semicolon");
        assert("semicolon"@.len() == 9);
        reveal_strlit("esc");
        assert("esc"@.len() == 3);
        reveal_strlit("escape");
        assert("escape"@.len() == 6);
        reveal_strlit("enter");
        assert("enter"@.len() == 5);
        reveal_strlit("return");
        assert("return"@.len() == 6);
        reveal_strlit("backspace");
        assert("backspace"@.len() == 9);
        assert("semicolon"@[0] != "backspace"@[0]);
        reveal_strlit("space");
        assert("space"@.len() == 5);
        reveal_strlit("tab");
        assert("tab"@.len() == 3);
        reveal_strlit("delete");
        assert("delete"@.len() == 6);
        reveal_strlit("del");
        assert("del"@.len() == 3);
        reveal_strlit("insert");
        assert("insert"@.len() == 6);
        reveal_strlit("ins");
        assert("ins"@.len() == 3);
        reveal_strlit("pageup");
        assert("pageup"@.len() == 6);
        reveal_strlit("page_up");
        assert("page_up"@.len() == 7);
        reveal_strlit("pgup");
        assert("pgup"@.len() == 4);
        reveal_strlit("pagedown");
        assert("pagedown"@.len() == 8);
        reveal_strlit("page_down");
        assert("page_down"@.len() == 9);
        assert("semicolon"@[0] != "page_down"@[0]);
        reveal_strlit("pgdown");
        assert("pgdown"@.len() == 6);
        reveal_strlit("up");
        assert("up"@.len() == 2);
        reveal_strlit("down");
        assert("down"@.len() == 4);
        reveal_strlit("left");
        assert("left"@.len() == 4);
        reveal_strlit("right");
        assert("right"@.len() == 5);
        reveal_strlit("minus");
        assert("minus"@.len() == 5);
        reveal_strlit("equal");
        assert("equal"@.len() == 5);
        reveal_strlit("equals");
        assert("equals"@.len() == 6);
        reveal_strlit("comma");
        assert("comma"@.len() == 5);
        reveal_strlit("dot");
        assert("dot"@.len() == 3);
        reveal_strlit("period");
        assert("period"@.len() == 6);
        reveal_strlit("slash");
        assert("slash"@.len() == 5);
        reveal_strlit("backslash");
        assert("backslash"@.len() == 9);
        assert("semicolon"@[0] != "backslash"@[0]);
    }
    assert(alias_table()[30] == ("apostrophe"@, "KEY_APOSTROPHE"@));
    assert(key_alias("apostrophe"@) == Some("KEY_APOSTROPHE"@)) by {
        reveal_strlit("apostrophe");
        assert("apostrophe"@.len() == 10);
        reveal_strlit("esc");
        assert("esc"@.len() == 3);
        reveal_strlit("escape");
        assert("escape"@.len() == 6);
        reveal_strlit("enter");
        assert("enter"@.len() == 5);
        reveal_strlit("return");
        assert("return"@.len() == 6);
        reveal_strlit("backspace");
        assert("backspace"@.len() == 9);
        reveal_strlit("space");
        assert("space"@.len() == 5);
        reveal_strlit("tab");
        assert("tab"@.len() == 3);
        reveal_strlit("delete");
        assert("delete"@.len() == 6);
        reveal_strlit("del");
        assert("del"@.len() == 3);
        reveal_strlit("insert");
        assert("insert"@.len() == 6);
        reveal_strlit("ins");
        assert("ins"@.len() == 3);
        reveal_strlit("pageup");
        assert("pageup"@.len() == 6);
        reveal_strlit("page_up");
        assert("page_up"@.len() == 7);
        reveal_strlit("pgup");
        assert("pgup"@.len() == 4);
        reveal_strlit("pagedown");
        assert("pagedown"@.len() == 8);
        reveal_strlit("page_down");
        assert("page_down"@.len() == 9);
        reveal_strlit("pgdown");
        assert("pgdown"@.len() == 6);
        reveal_strlit("up");
        assert("up"@.len() == 2);
        reveal_strlit("down");
        assert("down"@.len() == 4);
        reveal_strlit("left");
        assert("left"@.len() == 4);
        reveal_strlit("right");
        assert("right"@.len() == 5);
        reveal_strlit("minus");
        assert("minus"@.len() == 5);
        reveal_strlit("equal");
        assert("equal"@.len() == 5);
        reveal_strlit("equals");
        assert("equals"@.len() == 6);
        reveal_strlit("comma");
        assert("comma"@.len() == 5);
        reveal_strlit("dot");
        assert("dot"@.len() == 3);
        reveal_strlit("period");
        assert("period"@.len() == 6);
        reveal_strlit("slash");
        assert("slash"@.len() == 5);
        reveal_strlit("backslash");
        assert("backslash"@.len() == 9);
        reveal_strlit("semicolon");
        assert("semicolon"@.len() == 9);
    }
    assert(alias_table()[31] == ("quote"@, "KEY_APOSTROPHE"@));
    assert(key_alias("quote"@) == Some("KEY_APOSTROPHE"@)) by {
        reveal_strlit("quote");
        assert("quote"@.len() == 5);
        reveal_strlit("esc");
        assert("esc"@.len() == 3);
        reveal_strlit("escape");
        assert("escape"@.len() == 6);
        reveal_strlit("enter");
        assert("enter"@.len() == 5);
        assert("quote"@[0] != "enter"@[0]);
        reveal_strlit("return");
        assert("return"@.len() == 6);
        reveal_strlit("backspace");
        assert("backspace"@.len() == 9);
        reveal_strlit("space");
        assert("space"@.len() == 5);
        assert("quote"@[0] != "space"@[0]);
        reveal_strlit("tab");
        assert("tab"@.len() == 3);
        reveal_strlit("delete");
        assert("delete"@.len() == 6);
        reveal_strlit("del");
        assert("del"@.len() == 3);
        reveal_strlit("insert");
        assert("insert"@.len() == 6);
        reveal_strlit("ins");
        assert("ins"@.len() == 3);
        reveal_strlit("pageup");
        assert("pageup"@.len() == 6);
        reveal_strlit("page_up");
        assert("page_up"@.len() == 7);
        reveal_strlit("pgup");
        assert("pgup"@.len() == 4);
        reveal_strlit("pagedown");
        assert("pagedown"@.len() == 8);
        reveal_strlit("page_down");
        assert("page_down"@.len() == 9);
        reveal_strlit("pgdown");
        assert("pgdown"@.len() == 6);
        reveal_strlit("up");
        assert("up"@.len() == 2);
        reveal_strlit("down");
        assert("down"@.len() == 4);
        reveal_strlit("left");
        assert("left"@.len() == 4);
        reveal_strlit("right");
        assert("right"@.len() == 5);
        assert("quote"@[0] != "right"@[0]);
        reveal_strlit("minus");
        assert("minus"@.len() == 5);
        assert("quote"@[0] != "minus"@[0]);
        reveal_strlit("equal");
        assert("equal"@.len() == 5);
        assert("quote"@[0] != "equal"@[0]);
        reveal_strlit("equals");
        assert("equals"@.len() == 6);
        reveal_strlit("comma");
        assert("comma"@.len() == 5);
        assert("quote"@[0] != "comma"@[0]);
        reveal_strlit("dot");
        assert("dot"@.len() == 3);
        reveal_strlit("period");
        assert("period"@.len() == 6);
        reveal_strlit("slash");
        assert("slash"@.len() == 5);
        assert("quote"@[0] != "slash"@[0]);
        reveal_strlit("backslash");
        assert("backslash"@.len() == 9);
        reveal_strlit("semicolon");
        assert("semicolon"@.len() == 9);
        reveal_strlit("apostrophe");
        assert("apostrophe"@.len() == 10);
    }
    assert(alias_table()[32] == ("grave"@, "KEY_GRAVE"@));
    assert(key_alias("grave"@) == Some("KEY_GRAVE"@)) by {
        reveal_strlit("grave");
        assert("grave"@.len() == 5);
        reveal_strlit("esc");
        assert("esc"@.len() == 3);
        reveal_strlit("escape");
        assert("escape"@.len() == 6);
        reveal_strlit("enter");
        assert("enter"@.len() == 5);
        assert("grave"@[0] != "enter"@[0]);
        reveal_strlit("return");
        assert("return"@.len() == 6);
        reveal_strlit("backspace");
        assert("backspace"@.len() == 9);
        reveal_strlit("space");
        assert("space"@.len() == 5);
        assert("grave"@[0] != "space"@[0]);
        reveal_strlit("tab");
        assert("tab"@.len() == 3);
        reveal_strlit("delete");
        assert("delete"@.len() == 6);
        reveal_strlit("del");
        assert("del"@.len() == 3);
        reveal_strlit("insert");
        assert("insert"@.len() == 6);
        reveal_strlit("ins");
        assert("ins"@.len() == 3);
        reveal_strlit("pageup");
        assert("pageup"@.len() == 6);
        reveal_strlit("page_up");
        assert("page_up"@.len() == 7);
        reveal_strlit("pgup");
        assert("pgup"@.len() == 4);
        reveal_strlit("pagedown");
        assert("pagedown"@.len() == 8);
        reveal_strlit("page_down");
        assert("page_down"@.len() == 9);
        reveal_strlit("pgdown");
        assert("pgdown"@.len() == 6);
        reveal_strlit("up");
        assert("up"@.len() == 2);
        reveal_strlit("down");
        assert("down"@.len() == 4);
        reveal_strlit("left");
        assert("left"@.len() == 4);
        reveal_strlit("right");
        assert("right"@.len() == 5);
        assert("grave"@[0] != "right"@[0]);
        reveal_strlit("minus");
        assert("minus"@.len() == 5);
        assert("grave"@[0] != "minus"@[0]);
        reveal_strlit("equal");
        assert("equal"@.len() == 5);
        assert("grave"@[0] != "equal"@[0]);
        reveal_strlit("equals");
        assert("equals"@.len() == 6);
        reveal_strlit("comma");
        assert("comma"@.len() == 5);
        assert("grave"@[0] != "comma"@[0]);
        reveal_strlit("dot");
        assert("dot"@.len() == 3);
        reveal_strlit("period");
        assert("period"@.len() == 6);
        reveal_strlit("slash");
        assert("slash"@.len() == 5);
        assert("grave"@[0] != "slash"@[0]);
        reveal_strlit("backslash");
        assert("backslash"@.len() == 9);
        reveal_strlit("semicolon");
        assert("semicolon"@.len() == 9);
        reveal_strlit("apostrophe");
        assert("apostrophe"@.len() == 10);
        reveal_strlit("quote");
        assert("quote"@.len() == 5);
        assert("grave"@[0] != "quote"@[0]);
    }
    assert(alias_table()[33] == ("backtick"@, "KEY_GRAVE"@));
    assert(key_alias("backtick"@) == Some("KEY_GRAVE"@)) by {
        reveal_strlit("backtick");
        assert("backtick"@.len() == 8);
        reveal_strlit("esc");
        assert("esc"@.len() == 3);
        reveal_strlit("escape");
        assert("escape"@.len() == 6);
        reveal_strlit("enter");
        assert("enter"@.len() == 5);
        reveal_strlit("return");
        assert("return"@.len() == 6);
        reveal_strlit("backspace");
        assert("backspace"@.len() == 9);
        reveal_strlit("space");
        assert("space"@.len() == 5);
        reveal_strlit("tab");
        assert("tab"@.len() == 3);
        reveal_strlit("delete");
        assert("delete"@.len() == 6);
        reveal_strlit("del");
        assert("del"@.len() == 3);
        reveal_strlit("insert");
        assert("insert"@.len() == 6);
        reveal_strlit("ins");
        assert("ins"@.len() == 3);
        reveal_strlit("pageup");
        assert("pageup"@.len() == 6);
        reveal_strlit("page_up");
        assert("page_up"@.len() == 7);
        reveal_strlit("pgup");
        assert("pgup"@.len() == 4);
        reveal_strlit("pagedown");
        assert("pagedown"@.len() == 8);
        assert("backtick"@[0] != "pagedown"@[0]);
        reveal_strlit("page_down");
        assert("page_down"@.len() == 9);
        reveal_strlit("pgdown");
        assert("pgdown"@.len() == 6);
        reveal_strlit("up");
        assert("up"@.len() == 2);
        reveal_strlit("down");
        assert("down"@.len() == 4);
        reveal_strlit("left");
        assert("left"@.len() == 4);
        reveal_strlit("right");
        assert("right"@.len() == 5);
        reveal_strlit("minus");
        assert("minus"@.len() == 5);
        reveal_strlit("equal");
        assert("equal"@.len() == 5);
        reveal_strlit("equals");
        assert("equals"@.len() == 6);
        reveal_strlit("comma");
        assert("comma"@.len() == 5);
        reveal_strlit("dot");
        assert("dot"@.len() == 3);
        reveal_strlit("period");
        assert("period"@.len() == 6);
        reveal_strlit("slash");
        assert("slash"@.len() == 5);
        reveal_strlit("backslash");
        assert("backslash"@.len() == 9);
        reveal_strlit("semicolon");
        assert("semicolon"@.len() == 9);
        reveal_strlit("apostrophe");
        assert("apostrophe"@.len() == 10);
        reveal_strlit("quote");
        assert("quote"@.len() == 5);
        reveal_strlit("grave");
        assert("grave"@.len() == 5);
    }
    assert(alias_table()[34] == ("leftbracket"@, "KEY_LEFTBRACE"@));
    assert(key_alias("leftbracket"@) == Some("KEY_LEFTBRACE"@)) by {
        reveal_strlit("leftbracket");
        assert("leftbracket"@.len() == 11);
        reveal_strlit("esc");
        assert("esc"@.len() == 3);
        reveal_strlit("escape");
        assert("escape"@.len() == 6);
        reveal_strlit("enter");
        assert("enter"@.len() == 5);
        reveal_strlit("return");
        assert("return"@.len() == 6);
        reveal_strlit("backspace");
        assert("backspace"@.len() == 9);
        reveal_strlit("space");
        assert("space"@.len() == 5);
        reveal_strlit("tab");
        assert("tab"@.len() == 3);
        reveal_strlit("delete");
        assert("delete"@.len() == 6);
        reveal_strlit("del");
        assert("del"@.len() == 3);
        reveal_strlit("insert");
        assert("insert"@.len() == 6);
        reveal_strlit("ins");
        assert("ins"@.len() == 3);
        reveal_strlit("pageup");
        assert("pageup"@.len() == 6);
        reveal_strlit("page_up");
        assert("page_up"@.len() == 7);
        reveal_strlit("pgup");
        assert("pgup"@.len() == 4);
        reveal_strlit("pagedown");
        assert("pagedown"@.len() == 8);
        reveal_strlit("page_down");
        assert("page_down"@.len() == 9);
        reveal_strlit("pgdown");
        assert("pgdown"@.len() == 6);
        reveal_strlit("up");
        assert("up"@.len() == 2);
        reveal_strlit("down");
        assert("down"@.len() == 4);
        reveal_strlit("left");
        assert("left"@.len() == 4);
        reveal_strlit("right");
        assert("right"@.len() == 5);
        reveal_strlit("minus");
        assert("minus"@.len() == 5);
        reveal_strlit("equal");
        assert("equal"@.len() == 5);
        reveal_strlit("equals");
        assert("equals"@.len() == 6);
        reveal_strlit("comma");
        assert("comma"@.len() == 5);
        reveal_strlit("dot");
        assert("dot"@.len() == 3);
        reveal_strlit("period");
        assert("period"@.len() == 6);
        reveal_strlit("slash");
        assert("slash"@.len() == 5);
        reveal_strlit("backslash");
        assert("backslash"@.len() == 9);
        reveal_strlit("semicolon");
        assert("semicolon"@.len() == 9);
        reveal_strlit("apostrophe");
        assert("apostrophe"@.len() == 10);
        reveal_strlit("quote");
        assert("quote"@.len() == 5);
        reveal_strlit("grave");
        assert("grave"@.len() == 5);
        reveal_strlit("backtick");
        assert("backtick"@.len() == 8);
    }
    assert(alias_table()[35] == ("left_bracket"@, "KEY_LEFTBRACE"@));
    assert(key_alias("left_bracket"@) == Some("KEY_LEFTBRACE"@)) by {
        reveal_strlit("left_bracket");
        assert("left_bracket"@.len() == 12);
        reveal_strlit("esc");
        assert("esc"@.len() == 3);
        reveal_strlit("escape");
        assert("escape"@.len() == 6);
        reveal_strlit("enter");
        assert("enter"@.len() == 5);
        reveal_strlit("return");
        assert("return"@.len() == 6);
        reveal_strlit("backspace");
        assert("backspace"@.len() == 9);
        reveal_strlit("space");
        assert("space"@.len() == 5);
        reveal_strlit("tab");
        assert("tab"@.len() == 3);
        reveal_strlit("delete");
        assert("delete"@.len() == 6);
        reveal_strlit("del");
        assert("del"@.len() == 3);
        reveal_strlit("insert");
        assert("insert"@.len() == 6);
        reveal_strlit("ins");
        assert("ins"@.len() == 3);
        reveal_strlit("pageup");
        assert("pageup"@.len() == 6);
        reveal_strlit("page_up");
        assert("page_up"@.len() == 7);
        reveal_strlit("pgup");
        assert("pgup"@.len() == 4);
        reveal_strlit("pagedown");
        assert("pagedown"@.len() == 8);
        reveal_strlit("page_down");
        assert("page_down"@.len() == 9);
        reveal_strlit("pgdown");
        assert("pgdown"@.len() == 6);
        reveal_strlit("up");
        assert("up"@.len() == 2);
        reveal_strlit("down");
        assert("down"@.len() == 4);
        reveal_strlit("left");
        assert("left"@.len() == 4);
        reveal_strlit("right");
        assert("right"@.len() == 5);
        reveal_strlit("minus");
        assert("minus"@.len() == 5);
        reveal_strlit("equal");
        assert("equal"@.len() == 5);
        reveal_strlit("equals");
        assert("equals"@.len() == 6);
        reveal_strlit("comma");
        assert("comma"@.len() == 5);
        reveal_strlit("dot");
        assert("dot"@.len() == 3);
        reveal_strlit("period");
        assert("period"@.len() == 6);
        reveal_strlit("slash");
        assert("slash"@.len() == 5);
        reveal_strlit("backslash");
        assert("backslash"@.len() == 9);
        reveal_strlit("semicolon");
        assert("semicolon"@.len() == 9);
        reveal_strlit("apostrophe");
        assert("apostrophe"@.len() == 10);
        reveal_strlit("quote");
        assert("quote"@.len() == 5);
        reveal_strlit("grave");
        assert("grave"@.len() == 5);
        reveal_strlit("backtick");
        assert("backtick"@.len() == 8);
        reveal_strlit("leftbracket");
        assert("leftbracket"@.len() == 11);
    }
    assert(alias_table()[36] == ("rightbracket"@, "KEY_RIGHTBRACE"@));
    assert(key_alias("rightbracket"@) == Some("KEY_RIGHTBRACE"@)) by {
        reveal_strlit("rightbracket");
        assert("rightbracket"@.len() == 12);
        reveal_strlit("esc");
        assert("esc"@.len() == 3);
        reveal_strlit("escape");
        assert("escape"@.len() == 6);
        reveal_strlit("enter");
        assert("enter"@.len() == 5);
        reveal_strlit("return");
        assert("return"@.len() == 6);
        reveal_strlit("backspace");
        assert("backspace"@.len() == 9);
        reveal_strlit("space");
        assert("space"@.len() == 5);
        reveal_strlit("tab");
        assert("tab"@.len() == 3);
        reveal_strlit("delete");
        assert("delete"@.len() == 6);
        reveal_strlit("del");
        assert("del"@.len() == 3);
        reveal_strlit("insert");
        assert("insert"@.len() == 6);
        reveal_strlit("ins");
        assert("ins"@.len() == 3);
        reveal_strlit("pageup");
        assert("pageup"@.len() == 6);
        reveal_strlit("page_up");
        assert("page_up"@.len() == 7);
        reveal_strlit("pgup");
        assert("pgup"@.len() == 4);
        reveal_strlit("pagedown");
        assert("pagedown"@.len() == 8);
        reveal_strlit("page_down");
        assert("page_down"@.len() == 9);
        reveal_strlit("pgdown");
        assert("pgdown"@.len() == 6);
        reveal_strlit("up");
        assert("up"@.len() == 2);
        reveal_strlit("down");
        assert("down"@.len() == 4);
        reveal_strlit("left");
        assert("left"@.len() == 4);
        reveal_strlit("right");
        assert("right"@.len() == 5);
        reveal_strlit("minus");
        assert("minus"@.len() == 5);
        reveal_strlit("equal");
        assert("equal"@.len() == 5);
        reveal_strlit("equals");
        assert("equals"@.len() == 6);
        reveal_strlit("comma");
        assert("comma"@.len() == 5);
        reveal_strlit("dot");
        assert("dot"@.len() == 3);
        reveal_strlit("period");
        assert("period"@.len() == 6);
        reveal_strlit("slash");
        assert("slash"@.len() == 5);
        reveal_strlit("backslash");
        assert("backslash"@.len() == 9);
        reveal_strlit("semicolon");
        assert("semicolon"@.len() == 9);
        reveal_strlit("apostrophe");
        assert("apostrophe"@.len() == 10);
        reveal_strlit("quote");
        assert("quote"@.len() == 5);
        reveal_strlit("grave");
        assert("grave"@.len() == 5);
        reveal_strlit("backtick");
        assert("backtick"@.len() == 8);
        reveal_strlit("leftbracket");
        assert("leftbracket"@.len() == 11);
        reveal_strlit("left_bracket");
        assert("left_bracket"@.len() == 12);
        assert("rightbracket"@[0] != "left_bracket"@[0]);
    }
    assert(alias_table()[37] == ("right_bracket"@, "KEY_RIGHTBRACE"@));
    assert(key_alias("right_bracket"@) == Some("KEY_RIGHTBRACE"@)) by {
        reveal_strlit("right_bracket");
        assert("right_bracket"@.len() == 13);
        reveal_strlit("esc");
        assert("esc"@.len() == 3);
        reveal_strlit("escape");
        assert("escape"@.len() == 6);
        reveal_strlit("enter");
        assert("enter"@.len() == 5);
        reveal_strlit("return");
        assert("return"@.len() == 6);
        reveal_strlit("backspace");
        assert("backspace"@.len() == 9);
        reveal_strlit("space");
        assert("space"@.len() == 5);
        reveal_strlit("tab");
        assert("tab"@.len() == 3);
        reveal_strlit("delete");
        assert("delete"@.len() == 6);
        reveal_strlit("del");
        assert("del"@.len() == 3);
        reveal_strlit("insert");
        assert("insert"@.len() == 6);
        reveal_strlit("ins");
        assert("ins"@.len() == 3);
        reveal_strlit("pageup");
        assert("pageup"@.len() == 6);
        reveal_strlit("page_up");
        assert("page_up"@.len() == 7);
        reveal_strlit("pgup");
        assert("pgup"@.len() == 4);
        reveal_strlit("pagedown");
        assert("pagedown"@.len() == 8);
        reveal_strlit("page_down");
        assert("page_down"@.len() == 9);
        reveal_strlit("pgdown");
        assert("pgdown"@.len() == 6);
        reveal_strlit("up");
        assert("up"@.len() == 2);
        reveal_strlit("down");
        assert("down"@.len() == 4);
        reveal_strlit("left");
        assert("left"@.len() == 4);
        reveal_strlit("right");
        assert("right"@.len() == 5);
        reveal_strlit("minus");
        assert("minus"@.len() == 5);
        reveal_strlit("equal");
        assert("equal"@.len() == 5);
        reveal_strlit("equals");
        assert("equals"@.len() == 6);
        reveal_strlit("comma");
        assert("comma"@.len() == 5);
        reveal_strlit("dot");
        assert("dot"@.len() == 3);
        reveal_strlit("period");
        assert("period"@.len() == 6);
        reveal_strlit("slash");
        assert("slash"@.len() == 5);
        reveal_strlit("backslash");
        assert("backslash"@.len() == 9);
        reveal_strlit("semicolon");
        assert("semicolon"@.len() == 9);
        reveal_strlit("apostrophe");
        assert("apostrophe"@.len() == 10);
        reveal_strlit("quote");
        assert("quote"@.len() == 5);
        reveal_strlit("grave");
        assert("grave"@.len() == 5);
        reveal_strlit("backtick");
        assert("backtick"@.len() == 8);
        reveal_strlit("leftbracket");
        assert("leftbracket"@.len() == 11);
        reveal_strlit("left_bracket");
        assert("left_bracket"@.len() == 12);
        reveal_strlit("rightbracket");
        assert("rightbracket"@.len() == 12);
    }
    if key_alias(l) is Some {
        assert(exists|i: int| 0 <= i < alias_table().len() && (#[trigger] alias_table()[i]).0 == l);
    }
}

/// The evdev name that a configured key name stands for: `None` for a blank
/// name; otherwise, after trimming and turning `-` into `_`, the upper-cased
/// name when it already starts with `key_` or `btn_` (in any case), the
/// canonical name of a short alias, or `KEY_` followed by the upper-cased name.
pub open spec fn normalised_key_name(value: Seq<char>) -> Option<Seq<char>> {
    let t = trim(value);
    if t.len() == 0 {
        None
    } else {
        let v = dash_to_underscore(t);
        let l = lower(v);
        let u = upper(v);
        if has_prefix(l, "key_"@) || has_prefix(l, "btn_"@) {
            Some(u)
        } else {
            match key_alias(l) {
                Some(n) => Some(n),
                None => Some("KEY_"@ + u),
            }
        }
    }
}

/// The key that a configured key name denotes, or the error message.
pub open spec fn parsed_key(value: Seq<char>) -> Result<Key, Seq<char>> {
    match normalised_key_name(value) {
        None => Err("key cannot be empty"@),
        Some(n) => match evdev_key_code(n) {
            Some(c) => Ok(Key(c)),
            None => Err("unsupported key "@ + value),
        },
    }
}

/// How a key is shown: the evdev name in lower case, without a leading `key_`.
pub open spec fn key_display(debug: Seq<char>) -> Seq<char> {
    let l = lower(debug);
    if has_prefix(l, "key_"@) {
        l.skip("key_"@.len() as int)
    } else {
        l
    }
}

/// The modifier that a configured modifier name denotes, or the error message.
pub open spec fn parsed_modifier(value: Seq<char>) -> Result<Modifier, Seq<char>> {
    let l = lower(trim(value));
    if l == "ctrl"@ || l == "control"@ {
        Ok(Modifier::Ctrl)
    } else if l == "alt"@ {
        Ok(Modifier::Alt)
    } else if l == "shift"@ {
        Ok(Modifier::Shift)
    } else if l == "super"@ || l == "meta"@ {
        Ok(Modifier::Super)
    } else {
        Err("unsupported modifier "@ + value)
    }
}

/// A `Result` with its `String` error taken by its view.
pub open spec fn with_error_view<T>(r: Result<T, String>) -> Result<T, Seq<char>> {
    match r {
        Ok(t) => Ok(t),
        Err(e) => Err(e@),
    }
}

/// The canonical name of a short key alias, if `l` is one.
fn key_alias_of(l: &Vec<char>) -> (r: Option<&'static str>)
    ensures
        match r {
            Some(n) => key_alias(l@) == Some(n@),
            None => key_alias(l@) is None,
        },
{
    if equals_str(l, "esc") || equals_str(l, "escape") {
        Some("KEY_ESC")
    } else if equals_str(l, "enter") || equals_str(l, "return") {
        Some("KEY_ENTER")
    } else if equals_str(l, "backspace") {
        Some("KEY_BACKSPACE")
    } else if equals_str(l, "space") {
        Some("KEY_SPACE")
    } else if equals_str(l, "tab") {
        Some("KEY_TAB")
    } else if equals_str(l, "delete") || equals_str(l, "del") {
        Some("KEY_DELETE")
    } else if equals_str(l, "insert") || equals_str(l, "ins") {
        Some("KEY_INSERT")
    } else if equals_str(l, "pageup") || equals_str(l, "page_up") || equals_str(l, "pgup") {
        Some("KEY_PAGEUP")
    } else if equals_str(l, "pagedown") || equals_str(l, "page_down") || equals_str(l, "pgdown") {
        Some("KEY_PAGEDOWN")
    } else if equals_str(l, "up") {
        Some("KEY_UP")
    } else if equals_str(l, "down") {
        Some("KEY_DOWN")
    } else if equals_str(l, "left") {
        Some("KEY_LEFT")
    } else if equals_str(l, "right") {
        Some("KEY_RIGHT")
    } else if equals_str(l, "minus") {
        Some("KEY_MINUS")
    } else if equals_str(l, "equal") || equals_str(l, "equals") {
        Some("KEY_EQUAL")
    } else if equals_str(l, "comma") {
        Some("KEY_COMMA")
    } else if equals_str(l, "dot") || equals_str(l, "period") {
        Some("KEY_DOT")
    } else if equals_str(l, "slash") {
        Some("KEY_SLASH")
    } else if equals_str(l, "backslash") {
        Some("KEY_BACKSLASH")
    } else if equals_str(l, "semicolon") {
        Some("KEY_SEMICOLON")
    } else if equals_str(l, "apostrophe") || equals_str(l, "quote") {
        Some("KEY_APOSTROPHE")
    } else if equals_str(l, "grave") || equals_str(l, "backtick") {
        Some("KEY_GRAVE")
    } else if equals_str(l, "leftbracket") || equals_str(l, "left_bracket") {
        Some("KEY_LEFTBRACE")
    } else if equals_str(l, "rightbracket") || equals_str(l, "right_bracket") {
        Some("KEY_RIGHTBRACE")
    } else {
        None
    }
}

/// The evdev name that the configured key name `value` stands for; `None`
/// when `value` is blank.
pub fn normalise_key_name(value: &str) -> (r: Option<String>)
    ensures
        match r {
            Some(n) => normalised_key_name(value@) == Some(n@),
            None => normalised_key_name(value@) is None,
        },
{
    let t = trim_chars(&chars_of(value));
    if t.len() == 0 {
        return None;
    }
    let v = dash_to_underscore_chars(&t);
    let l = lower_chars(&v);
    let u = upper_chars(&v);
    if starts_with_str(&l, "key_") || starts_with_str(&l, "btn_") {
        return Some(string_of(&u));
    }
    match key_alias_of(&l) {
        Some(n) => Some(String::from_str(n)),
        None => {
            let upper_name = string_of(&u);
            Some(concat_str("KEY_", upper_name.as_str()))
        },
    }
}

/// Shows the evdev name `debug` as a key is shown: in lower case, without a
/// leading `key_`.
pub fn key_display_from_name(debug: &str) -> (r: String)
    ensures
        r@ == key_display(debug@),
{
    let l = lower_chars(&chars_of(debug));
    if starts_with_str(&l, "key_") {
        proof {
            reveal_strlit("key_");
        }
        let mut out: Vec<char> = Vec::new();
        let n = l.len();
        let mut i: usize = 4;
        while i < n
            invariant
                4 <= i <= n,
                n == l.len(),
                out@ == l@.subrange(4, i as int),
            decreases n - i,
        {
            out.push(l[i]);
            assert(out@ =~= l@.subrange(4, i + 1));
            i = i + 1;
        }
        assert(l@.skip(4) =~= l@.subrange(4, n as int));
        string_of(&out)
    } else {
        string_of(&l)
    }
}

impl Key {
    /// The key with the given input event code.
    pub fn from_keycode(keycode: u16) -> (r: Key)
        ensures
            r == Key(keycode),
    {
        Key(keycode)
    }

    /// The input event code of this key.
    pub fn code(&self) -> (r: u16)
        ensures
            r == self.0,
    {
        self.0
    }

    /// The key for an evdev lookup that gave `found` for the configured name
    /// `value`: that key, or the error that names `value`.
    pub fn from_lookup(value: &str, found: Option<u16>) -> (r: Result<Key, String>)
        ensures
            with_error_view(r) == (match found {
                Some(c) => Ok(Key(c)),
                None => Err("unsupported key "@ + value@),
            }),
    {
        match found {
            Some(c) => Ok(Key(c)),
            None => Err(concat_str("unsupported key ", value)),
        }
    }

    /// Parses a configured key name: an evdev name such as `KEY_ESC` or
    /// `btn_left`, a short alias such as `esc` or `pageup`, or a bare key
    /// name such as `c` or `f12`, in any case, with `-` for `_`.
    pub fn from_str(value: &str) -> (r: Result<Key, String>)
        ensures
            with_error_view(r) == parsed_key(value@),
    {
        match normalise_key_name(value) {
            None => Err(String::from_str("key cannot be empty")),
            Some(name) => Key::from_lookup(value, evdev_code_for_name(name.as_str())),
        }
    }

    /// The key's name as shown: evdev's name in lower case without `key_`
    /// (`esc`, `f12`, `btn_left`).
    ///
    /// For every key that evdev names, parsing the shown name gives the key
    /// back.
    pub fn to_string(&self) -> (r: String)
        ensures
            r@ == key_display(evdev_key_debug(self.0)),
            evdev_style_name(evdev_key_debug(self.0)) ==> parsed_key(r@)
                == Ok::<Key, Seq<char>>(*self),
    {
        let name = evdev_key_name(self.0);
        proof {
            if evdev_style_name(name@) {
                lemma_display_normalises_back(name@);
            }
        }
        key_display_from_name(name.as_str())
    }
}

impl Modifier {
    /// Parses a configured modifier name (`ctrl`/`control`, `alt`, `shift`,
    /// `super`/`meta`), ignoring case and surrounding whitespace.
    pub fn from_str(value: &str) -> (r: Result<Modifier, String>)
        ensures
            with_error_view(r) == parsed_modifier(value@),
    {
        let l = lower_chars(&trim_chars(&chars_of(value)));
        if equals_str(&l, "ctrl") || equals_str(&l, "control") {
            Ok(Modifier::Ctrl)
        } else if equals_str(&l, "alt") {
            Ok(Modifier::Alt)
        } else if equals_str(&l, "shift") {
            Ok(Modifier::Shift)
        } else if equals_str(&l, "super") || equals_str(&l, "meta") {
            Ok(Modifier::Super)
        } else {
            Err(concat_str("unsupported modifier ", value))
        }
    }
}

/// A key-name suffix (what follows `KEY_`) whose lower case is shown as is
/// and read back unchanged: it does not itself start with `key_` or `btn_`,
/// and if it is one of the short aliases, that alias names the key of the
/// same name (as `esc` does, and `escape` does not).
pub open spec fn plain_key_suffix(x: Seq<char>) -> bool {
    let l = lower(x);
    &&& !has_prefix(l, "key_"@)
    &&& !has_prefix(l, "btn_"@)
    &&& (key_alias(l) is Some ==> key_alias(l) == Some("KEY_"@ + upper(l)))
}

/// An evdev name whose shown form reads back to it: a `BTN_` name, or a
/// `KEY_` name with a plain suffix.
pub open spec fn display_round_trips(d: Seq<char>) -> bool {
    &&& evdev_style_name(d)
    &&& has_prefix(d, "KEY_"@) ==> plain_key_suffix(d.skip(4))
}

/// Showing an evdev-style name and reading the shown form back as a key
/// name gives the evdev name again.
pub proof fn lemma_display_normalises_back(d: Seq<char>)
    requires
        display_round_trips(d),
    ensures
        normalised_key_name(key_display(d)) == Some(d),
{
    reveal_strlit("KEY_");
    reveal_strlit("BTN_");
    reveal_strlit("key_");
    reveal_strlit("btn_");
    assert(forall|i: int| 0 <= i < d.len() ==> name_char(#[trigger] d[i]));
    lemma_name_chars(d);
    let ld = lower(d);
    if has_prefix(d, "KEY_"@) {
        assert(d.subrange(0, 4)[0] == d[0] && d.subrange(0, 4)[1] == d[1] && d.subrange(0, 4)[2]
            == d[2] && d.subrange(0, 4)[3] == d[3]);
        assert(d[0] == 'K' && d[1] == 'E' && d[2] == 'Y' && d[3] == '_');
        assert(ld[0] == 'k' && ld[1] == 'e' && ld[2] == 'y' && ld[3] == '_');
        assert(ld.subrange(0, 4) =~= "key_"@);
        let x = d.skip(4);
        assert(forall|i: int| 0 <= i < x.len() ==> name_char(#[trigger] x[i])) by {
            assert forall|i: int| 0 <= i < x.len() implies name_char(#[trigger] x[i]) by {
                assert(x[i] == d[i + 4]);
            }
        }
        lemma_name_chars(x);
        assert(ld.skip(4) =~= lower(x));
        assert(key_display(d) == lower(x));
        assert(d =~= "KEY_"@ + x);
    } else {
        assert(d.subrange(0, 4)[0] == d[0] && d.subrange(0, 4)[1] == d[1] && d.subrange(0, 4)[2]
            == d[2] && d.subrange(0, 4)[3] == d[3]);
        assert(d[0] == 'B' && d[1] == 'T' && d[2] == 'N' && d[3] == '_');
        assert(ld[0] == 'b' && ld[1] == 't' && ld[2] == 'n' && ld[3] == '_');
        assert(ld.subrange(0, 4) =~= "btn_"@);
        assert(ld.subrange(0, 4) != "key_"@) by {
            assert(ld.subrange(0, 4)[0] != "key_"@[0]);
        }
        assert(key_display(d) == ld);
    }
}

/// Key and modifier names are read regardless of ASCII case: a name, its
/// lower case and its upper case stand for the same evdev name, denote the
/// same key when one of them denotes a key, and the same modifier.
pub proof fn lemma_names_case_insensitive(value: Seq<char>)
    ensures
        normalised_key_name(lower(value)) == normalised_key_name(value),
        normalised_key_name(upper(value)) == normalised_key_name(value),
        parsed_key(value) is Ok ==> parsed_key(lower(value)) == parsed_key(value)
            && parsed_key(upper(value)) == parsed_key(value),
        parsed_key(value) is Err ==> parsed_key(lower(value)) is Err && parsed_key(upper(value)) is Err,
        parsed_modifier(value) is Ok ==> parsed_modifier(lower(value)) == parsed_modifier(value)
            && parsed_modifier(upper(value)) == parsed_modifier(value),
        parsed_modifier(value) is Err ==> parsed_modifier(lower(value)) is Err
            && parsed_modifier(upper(value)) is Err,
{
    lemma_case_commutes(value);
    let t = trim(value);
    lemma_case_commutes(t);
    let v = dash_to_underscore(t);
    lemma_case_commutes(v);
}

/// Every canonical name that a short alias stands for is an evdev-style
/// `KEY_` name.
proof fn lemma_alias_targets(l: Seq<char>)
    ensures
        key_alias(l) matches Some(t) ==> evdev_style_name(t) && has_prefix(t, "KEY_"@),
{
    reveal_strlit("KEY_");
    reveal_strlit("KEY_ESC");
    reveal_strlit("KEY_ENTER");
    reveal_strlit("KEY_BACKSPACE");
    reveal_strlit("KEY_SPACE");
    reveal_strlit("KEY_TAB");
    reveal_strlit("KEY_DELETE");
    reveal_strlit("KEY_INSERT");
    reveal_strlit("KEY_PAGEUP");
    reveal_strlit("KEY_PAGEDOWN");
    reveal_strlit("KEY_UP");
    reveal_strlit("KEY_DOWN");
    reveal_strlit("KEY_LEFT");
    reveal_strlit("KEY_RIGHT");
    reveal_strlit("KEY_MINUS");
    reveal_strlit("KEY_EQUAL");
    reveal_strlit("KEY_COMMA");
    reveal_strlit("KEY_DOT");
    reveal_strlit("KEY_SLASH");
    reveal_strlit("KEY_BACKSLASH");
    reveal_strlit("KEY_SEMICOLON");
    reveal_strlit("KEY_APOSTROPHE");
    reveal_strlit("KEY_GRAVE");
    reveal_strlit("KEY_LEFTBRACE");
    reveal_strlit("KEY_RIGHTBRACE");
    if let Some(t) = key_alias(l) {
        assert(t.subrange(0, 4) =~= "KEY_"@);
    }
}

/// An evdev-style `KEY_` or `BTN_` name reads as itself.
proof fn lemma_style_name_reads_as_itself(d: Seq<char>)
    requires
        evdev_style_name(d),
    ensures
        normalised_key_name(d) == Some(d),
{
    reveal_strlit("KEY_");
    reveal_strlit("BTN_");
    reveal_strlit("key_");
    reveal_strlit("btn_");
    assert(forall|i: int| 0 <= i < d.len() ==> crate::text::name_char(#[trigger] d[i]));
    lemma_name_chars(d);
    lemma_case_commutes(d);
    let ld = lower(d);
    assert(d.subrange(0, 4)[0] == d[0] && d.subrange(0, 4)[1] == d[1] && d.subrange(0, 4)[2]
        == d[2] && d.subrange(0, 4)[3] == d[3]);
    if has_prefix(d, "KEY_"@) {
        assert(ld[0] == 'k' && ld[1] == 'e' && ld[2] == 'y' && ld[3] == '_');
        assert(ld.subrange(0, 4) =~= "key_"@);
    } else {
        assert(ld[0] == 'b' && ld[1] == 't' && ld[2] == 'n' && ld[3] == '_');
        assert(ld.subrange(0, 4) =~= "btn_"@);
    }
}

/// A name whose first and last characters are not whitespace reads with no
/// trimming, and so does its upper case.
proof fn lemma_clean_upper(v: Seq<char>)
    requires
        v.len() > 0,
        !is_ws(v[0]),
        !is_ws(v.last()),
    ensures
        trim(upper(v)) == upper(v),
{
    lemma_case_char(v[0]);
    lemma_case_char(v.last());
    lemma_trim_of_clean(upper(v));
}

/// Reading a key name is idempotent: the evdev name that a key name stands
/// for stands for itself.
pub proof fn lemma_normalise_idempotent(value: Seq<char>)
    ensures
        normalised_key_name(value) matches Some(n) ==> normalised_key_name(n) == Some(n),
{
    reveal_strlit("KEY_");
    reveal_strlit("key_");
    let t = trim(value);
    if t.len() > 0 {
        crate::text::lemma_trim_idempotent(value);
        crate::text::lemma_trim_start_shape(value);
        crate::text::lemma_trim_end_shape(crate::text::trim_start(value));
        let v = dash_to_underscore(t);
        let l = lower(v);
        let u = upper(v);
        lemma_case_commutes(v);
        lemma_case_commutes(u);
        assert(t.len() > 0 ==> !is_ws(t[0]) && !is_ws(t.last())) by {
            crate::text::lemma_trim_start_shape(value);
            let a = crate::text::trim_start(value);
            crate::text::lemma_trim_end_shape(a);
            if t.len() > 0 {
                assert(t[0] == a[0]);
            }
        }
        assert(!is_ws(v[0]) && !is_ws(v.last()));
        lemma_clean_upper(v);
        assert(dash_to_underscore(u) =~= u) by {
            assert forall|i: int| 0 <= i < u.len() implies u[i] != '-' by {
                lemma_case_char(v[i]);
            }
        }
        if has_prefix(l, "key_"@) || has_prefix(l, "btn_"@) {
            assert(lower(u) == l);
        } else {
            match key_alias(l) {
                Some(n) => {
                    lemma_alias_targets(l);
                    lemma_style_name_reads_as_itself(n);
                },
                None => {
                    let n = "KEY_"@ + u;
                    assert(n[0] == 'K');
                    assert(n.last() == u.last());
                    lemma_trim_of_clean(n);
                    assert(dash_to_underscore(n) =~= "KEY_"@ + dash_to_underscore(u));
                    assert(lower(n) =~= "key_"@ + lower(u));
                    assert(lower(n).subrange(0, 4) =~= "key_"@);
                    assert(upper(lower(n)) =~= "KEY_"@ + upper(lower(u)));
                },
            }
        }
    }
}

} // verus!

//! The tables of keys, virtual keys and scan codes.
use vstd::prelude::*;
use crate::keyboard::key::Key;
use crate::keyboard::key_modifiers::modifier_name;

verus! {

/// The number of named keys.
pub const MAX_KEYS: usize = 204;

/// The number of virtual key codes.
pub const MAX_VK_CODE: usize = 256;

/// The number of scan codes (each with a plain and an extended variant).
pub const MAX_SCAN_CODE: usize = 136;

/// The name of the key at position `i` of the key table (ordered by name).
pub closed spec fn key_name_spec(i: u8) -> Seq<char> {
    match i {
        0 => "\t"@,
        1 => "\u{1b}"@,
        2 => "0"@,
        3 => "1"@,
        4 => "2"@,
        5 => "3"@,
        6 => "4"@,
        7 => "5"@,
        8 => "6"@,
        9 => "7"@,
        10 => "8"@,
        11 => "9"@,
        12 => "<00>"@,
        13 => "A"@,
        14 => "ACCEPT"@,
        15 => "APOSTROPHE"@,
        16 => "APPLICATION"@,
        17 => "ATTN"@,
        18 => "B"@,
        19 => "BACKSLASH"@,
        20 => "BACKSLASH_2"@,
        21 => "BACKSPACE"@,
        22 => "BACKTICK"@,
        23 => "BREAK"@,
        24 => "BRIGHTNESS"@,
        25 => "BROWSER_BACK"@,
        26 => "BROWSER_FAVORITES"@,
        27 => "BROWSER_FORWARD"@,
        28 => "BROWSER_HOME"@,
        29 => "BROWSER_REFRESH"@,
        30 => "BROWSER_SEARCH"@,
        31 => "BROWSER_STOP"@,
        32 => "C"@,
        33 => "CAPS_LOCK"@,
        34 => "COMMA"@,
        35 => "CONVERT"@,
        36 => "CRSEL"@,
        37 => "CTRL"@,
        38 => "D"@,
        39 => "DELETE"@,
        40 => "DOT"@,
        41 => "DOWN"@,
        42 => "E"@,
        43 => "END"@,
        44 => "ENTER"@,
        45 => "EQ"@,
        46 => "EREOF"@,
        47 => "ESC"@,
        48 => "EXECUTE"@,
        49 => "EXSEL"@,
        50 => "F"@,
        51 => "F1"@,
        52 => "F10"@,
        53 => "F11"@,
        54 => "F12"@,
        55 => "F13"@,
        56 => "F14"@,
        57 => "F15"@,
        58 => "F16"@,
        59 => "F17"@,
        60 => "F18"@,
        61 => "F19"@,
        62 => "F2"@,
        63 => "F20"@,
        64 => "F21"@,
        65 => "F22"@,
        66 => "F23"@,
        67 => "F24"@,
        68 => "F3"@,
        69 => "F4"@,
        70 => "F5"@,
        71 => "F6"@,
        72 => "F7"@,
        73 => "F8"@,
        74 => "F9"@,
        75 => "FINAL"@,
        76 => "FN_BROWSER_HOME"@,
        77 => "FN_BROWSER_SEARCH"@,
        78 => "FN_LAUNCH_APP1"@,
        79 => "FN_LAUNCH_APP2"@,
        80 => "FN_LAUNCH_MAIL"@,
        81 => "FN_MEDIA_NEXT_TRACK"@,
        82 => "FN_MEDIA_PLAY_PAUSE"@,
        83 => "FN_MEDIA_PREV_TRACK"@,
        84 => "FN_VOLUME_DOWN"@,
        85 => "FN_VOLUME_MUTE"@,
        86 => "FN_VOLUME_UP"@,
        87 => "G"@,
        88 => "H"@,
        89 => "HANJA"@,
        90 => "HELP"@,
        91 => "HOME"@,
        92 => "I"@,
        93 => "IME_OFF"@,
        94 => "IME_ON"@,
        95 => "INSERT"@,
        96 => "J"@,
        97 => "JUNJA"@,
        98 => "K"@,
        99 => "KANA"@,
        100 => "L"@,
        101 => "LAUNCH_APP1"@,
        102 => "LAUNCH_APP2"@,
        103 => "LAUNCH_MAIL"@,
        104 => "LAUNCH_MEDIA_SELECT"@,
        105 => "LEFT"@,
        106 => "LEFT_ALT"@,
        107 => "LEFT_BRACKET"@,
        108 => "LEFT_BUTTON"@,
        109 => "LEFT_CTRL"@,
        110 => "LEFT_SHIFT"@,
        111 => "LEFT_WIN"@,
        112 => "M"@,
        113 => "MEDIA_NEXT_TRACK"@,
        114 => "MEDIA_PLAY_PAUSE"@,
        115 => "MEDIA_PREV_TRACK"@,
        116 => "MEDIA_STOP"@,
        117 => "MENU"@,
        118 => "MIDDLE_BUTTON"@,
        119 => "MINUS"@,
        120 => "MODE_CHANGE"@,
        121 => "N"@,
        122 => "NONAME"@,
        123 => "NON_CONVERT"@,
        124 => "NUM_0"@,
        125 => "NUM_1"@,
        126 => "NUM_2"@,
        127 => "NUM_3"@,
        128 => "NUM_4"@,
        129 => "NUM_5"@,
        130 => "NUM_6"@,
        131 => "NUM_7"@,
        132 => "NUM_8"@,
        133 => "NUM_9"@,
        134 => "NUM_CLEAR"@,
        135 => "NUM_DELETE"@,
        136 => "NUM_DIV"@,
        137 => "NUM_DOT"@,
        138 => "NUM_DOWN"@,
        139 => "NUM_END"@,
        140 => "NUM_ENTER"@,
        141 => "NUM_HOME"@,
        142 => "NUM_INSERT"@,
        143 => "NUM_LEFT"@,
        144 => "NUM_LOCK"@,
        145 => "NUM_LOCK_2"@,
        146 => "NUM_MINUS"@,
        147 => "NUM_MUL"@,
        148 => "NUM_PAGE_DOWN"@,
        149 => "NUM_PAGE_UP"@,
        150 => "NUM_PLUS"@,
        151 => "NUM_RIGHT"@,
        152 => "NUM_UP"@,
        153 => "O"@,
        154 => "OEM_8"@,
        155 => "OEM_CLEAR"@,
        156 => "P"@,
        157 => "PA1"@,
        158 => "PACKET"@,
        159 => "PAGE_DOWN"@,
        160 => "PAGE_UP"@,
        161 => "PAUSE"@,
        162 => "PLAY"@,
        163 => "PLUS"@,
        164 => "PRINT"@,
        165 => "PRINT_SCREEN"@,
        166 => "PROCESS_KEY"@,
        167 => "Q"@,
        168 => "R"@,
        169 => "RIGHT"@,
        170 => "RIGHT_ALT"@,
        171 => "RIGHT_BRACKET"@,
        172 => "RIGHT_BUTTON"@,
        173 => "RIGHT_CTRL"@,
        174 => "RIGHT_SHIFT"@,
        175 => "RIGHT_SHIFT_2"@,
        176 => "RIGHT_WIN"@,
        177 => "S"@,
        178 => "SCROLL_LOCK"@,
        179 => "SELECT"@,
        180 => "SEMICOLON"@,
        181 => "SEPARATOR"@,
        182 => "SHIFT"@,
        183 => "SLASH"@,
        184 => "SLEEP"@,
        185 => "SPACE"@,
        186 => "SYS_REQ"@,
        187 => "T"@,
        188 => "TAB"@,
        189 => "U"@,
        190 => "UNASSIGNED"@,
        191 => "UP"@,
        192 => "V"@,
        193 => "VOLUME_DOWN"@,
        194 => "VOLUME_MUTE"@,
        195 => "VOLUME_UP"@,
        196 => "W"@,
        197 => "X"@,
        198 => "XBUTTON1"@,
        199 => "XBUTTON2"@,
        200 => "Y"@,
        201 => "Z"@,
        202 => "ZOOM"@,
        203 => "_"@,
        _ => Seq::empty(),
    }
}

/// The key at position `i` of the key table.
pub closed spec fn key_spec(i: u8) -> Key {
    match i {
        0 => Key { vk_code: 0x00, scan_code: 0x0F, is_ext_scan_code: true },
        1 => Key { vk_code: 0x00, scan_code: 0x01, is_ext_scan_code: true },
        2 => Key { vk_code: 0x30, scan_code: 0x0B, is_ext_scan_code: false },
        3 => Key { vk_code: 0x31, scan_code: 0x02, is_ext_scan_code: false },
        4 => Key { vk_code: 0x32, scan_code: 0x03, is_ext_scan_code: false },
        5 => Key { vk_code: 0x33, scan_code: 0x04, is_ext_scan_code: false },
        6 => Key { vk_code: 0x34, scan_code: 0x05, is_ext_scan_code: false },
        7 => Key { vk_code: 0x35, scan_code: 0x06, is_ext_scan_code: false },
        8 => Key { vk_code: 0x36, scan_code: 0x07, is_ext_scan_code: false },
        9 => Key { vk_code: 0x37, scan_code: 0x08, is_ext_scan_code: false },
        10 => Key { vk_code: 0x38, scan_code: 0x09, is_ext_scan_code: false },
        11 => Key { vk_code: 0x39, scan_code: 0x0A, is_ext_scan_code: false },
        12 => Key { vk_code: 0x00, scan_code: 0x54, is_ext_scan_code: true },
        13 => Key { vk_code: 0x41, scan_code: 0x1E, is_ext_scan_code: false },
        14 => Key { vk_code: 0x1E, scan_code: 0x00, is_ext_scan_code: false },
        15 => Key { vk_code: 0xDE, scan_code: 0x28, is_ext_scan_code: false },
        16 => Key { vk_code: 0x5D, scan_code: 0x5D, is_ext_scan_code: true },
        17 => Key { vk_code: 0xF6, scan_code: 0x00, is_ext_scan_code: false },
        18 => Key { vk_code: 0x42, scan_code: 0x30, is_ext_scan_code: false },
        19 => Key { vk_code: 0xDC, scan_code: 0x2B, is_ext_scan_code: false },
        20 => Key { vk_code: 0xE2, scan_code: 0x56, is_ext_scan_code: false },
        21 => Key { vk_code: 0x08, scan_code: 0x0E, is_ext_scan_code: false },
        22 => Key { vk_code: 0xC0, scan_code: 0x29, is_ext_scan_code: false },
        23 => Key { vk_code: 0x03, scan_code: 0x46, is_ext_scan_code: true },
        24 => Key { vk_code: 0x00, scan_code: 0x2B, is_ext_scan_code: true },
        25 => Key { vk_code: 0xA6, scan_code: 0x6A, is_ext_scan_code: true },
        26 => Key { vk_code: 0xAB, scan_code: 0x66, is_ext_scan_code: true },
        27 => Key { vk_code: 0xA7, scan_code: 0x69, is_ext_scan_code: true },
        28 => Key { vk_code: 0xAC, scan_code: 0x00, is_ext_scan_code: true },
        29 => Key { vk_code: 0xA8, scan_code: 0x67, is_ext_scan_code: true },
        30 => Key { vk_code: 0xAA, scan_code: 0x00, is_ext_scan_code: true },
        31 => Key { vk_code: 0xA9, scan_code: 0x68, is_ext_scan_code: true },
        32 => Key { vk_code: 0x43, scan_code: 0x2E, is_ext_scan_code: false },
        33 => Key { vk_code: 0x14, scan_code: 0x3A, is_ext_scan_code: false },
        34 => Key { vk_code: 0xBC, scan_code: 0x33, is_ext_scan_code: false },
        35 => Key { vk_code: 0x1C, scan_code: 0x00, is_ext_scan_code: false },
        36 => Key { vk_code: 0xF7, scan_code: 0x00, is_ext_scan_code: false },
        37 => Key { vk_code: 0x11, scan_code: 0x1D, is_ext_scan_code: false },
        38 => Key { vk_code: 0x44, scan_code: 0x20, is_ext_scan_code: false },
        39 => Key { vk_code: 0x2E, scan_code: 0x53, is_ext_scan_code: true },
        40 => Key { vk_code: 0xBE, scan_code: 0x34, is_ext_scan_code: false },
        41 => Key { vk_code: 0x28, scan_code: 0x50, is_ext_scan_code: true },
        42 => Key { vk_code: 0x45, scan_code: 0x12, is_ext_scan_code: false },
        43 => Key { vk_code: 0x23, scan_code: 0x4F, is_ext_scan_code: true },
        44 => Key { vk_code: 0x0D, scan_code: 0x1C, is_ext_scan_code: false },
        45 => Key { vk_code: 0xBB, scan_code: 0x0D, is_ext_scan_code: false },
        46 => Key { vk_code: 0xF9, scan_code: 0x5D, is_ext_scan_code: false },
        47 => Key { vk_code: 0x1B, scan_code: 0x01, is_ext_scan_code: false },
        48 => Key { vk_code: 0x2B, scan_code: 0x00, is_ext_scan_code: false },
        49 => Key { vk_code: 0xF8, scan_code: 0x00, is_ext_scan_code: false },
        50 => Key { vk_code: 0x46, scan_code: 0x21, is_ext_scan_code: false },
        51 => Key { vk_code: 0x70, scan_code: 0x3B, is_ext_scan_code: false },
        52 => Key { vk_code: 0x79, scan_code: 0x44, is_ext_scan_code: false },
        53 => Key { vk_code: 0x7A, scan_code: 0x57, is_ext_scan_code: false },
        54 => Key { vk_code: 0x7B, scan_code: 0x58, is_ext_scan_code: false },
        55 => Key { vk_code: 0x7C, scan_code: 0x64, is_ext_scan_code: false },
        56 => Key { vk_code: 0x7D, scan_code: 0x65, is_ext_scan_code: false },
        57 => Key { vk_code: 0x7E, scan_code: 0x66, is_ext_scan_code: false },
        58 => Key { vk_code: 0x7F, scan_code: 0x67, is_ext_scan_code: false },
        59 => Key { vk_code: 0x80, scan_code: 0x68, is_ext_scan_code: false },
        60 => Key { vk_code: 0x81, scan_code: 0x69, is_ext_scan_code: false },
        61 => Key { vk_code: 0x82, scan_code: 0x6A, is_ext_scan_code: false },
        62 => Key { vk_code: 0x71, scan_code: 0x3C, is_ext_scan_code: false },
        63 => Key { vk_code: 0x83, scan_code: 0x6B, is_ext_scan_code: false },
        64 => Key { vk_code: 0x84, scan_code: 0x6C, is_ext_scan_code: false },
        65 => Key { vk_code: 0x85, scan_code: 0x6D, is_ext_scan_code: false },
        66 => Key { vk_code: 0x86, scan_code: 0x6E, is_ext_scan_code: false },
        67 => Key { vk_code: 0x87, scan_code: 0x76, is_ext_scan_code: false },
        68 => Key { vk_code: 0x72, scan_code: 0x3D, is_ext_scan_code: false },
        69 => Key { vk_code: 0x73, scan_code: 0x3E, is_ext_scan_code: false },
        70 => Key { vk_code: 0x74, scan_code: 0x3F, is_ext_scan_code: false },
        71 => Key { vk_code: 0x75, scan_code: 0x40, is_ext_scan_code: false },
        72 => Key { vk_code: 0x76, scan_code: 0x41, is_ext_scan_code: false },
        73 => Key { vk_code: 0x77, scan_code: 0x42, is_ext_scan_code: false },
        74 => Key { vk_code: 0x78, scan_code: 0x43, is_ext_scan_code: false },
        75 => Key { vk_code: 0x18, scan_code: 0x00, is_ext_scan_code: false },
        76 => Key { vk_code: 0xAC, scan_code: 0x32, is_ext_scan_code: true },
        77 => Key { vk_code: 0xAA, scan_code: 0x65, is_ext_scan_code: true },
        78 => Key { vk_code: 0xB6, scan_code: 0x6B, is_ext_scan_code: true },
        79 => Key { vk_code: 0xB7, scan_code: 0x21, is_ext_scan_code: true },
        80 => Key { vk_code: 0xB4, scan_code: 0x6C, is_ext_scan_code: true },
        81 => Key { vk_code: 0xB0, scan_code: 0x19, is_ext_scan_code: true },
        82 => Key { vk_code: 0xB3, scan_code: 0x22, is_ext_scan_code: true },
        83 => Key { vk_code: 0xB1, scan_code: 0x10, is_ext_scan_code: true },
        84 => Key { vk_code: 0xAE, scan_code: 0x2E, is_ext_scan_code: true },
        85 => Key { vk_code: 0xAD, scan_code: 0x20, is_ext_scan_code: true },
        86 => Key { vk_code: 0xAF, scan_code: 0x30, is_ext_scan_code: true },
        87 => Key { vk_code: 0x47, scan_code: 0x22, is_ext_scan_code: false },
        88 => Key { vk_code: 0x48, scan_code: 0x23, is_ext_scan_code: false },
        89 => Key { vk_code: 0x19, scan_code: 0x00, is_ext_scan_code: false },
        90 => Key { vk_code: 0x2F, scan_code: 0x63, is_ext_scan_code: false },
        91 => Key { vk_code: 0x24, scan_code: 0x47, is_ext_scan_code: true },
        92 => Key { vk_code: 0x49, scan_code: 0x17, is_ext_scan_code: false },
        93 => Key { vk_code: 0x1A, scan_code: 0x00, is_ext_scan_code: false },
        94 => Key { vk_code: 0x16, scan_code: 0x00, is_ext_scan_code: false },
        95 => Key { vk_code: 0x2D, scan_code: 0x52, is_ext_scan_code: true },
        96 => Key { vk_code: 0x4A, scan_code: 0x24, is_ext_scan_code: false },
        97 => Key { vk_code: 0x17, scan_code: 0x00, is_ext_scan_code: false },
        98 => Key { vk_code: 0x4B, scan_code: 0x25, is_ext_scan_code: false },
        99 => Key { vk_code: 0x15, scan_code: 0x00, is_ext_scan_code: false },
        100 => Key { vk_code: 0x4C, scan_code: 0x26, is_ext_scan_code: false },
        101 => Key { vk_code: 0xB6, scan_code: 0x00, is_ext_scan_code: true },
        102 => Key { vk_code: 0xB7, scan_code: 0x00, is_ext_scan_code: true },
        103 => Key { vk_code: 0xB4, scan_code: 0x00, is_ext_scan_code: true },
        104 => Key { vk_code: 0xB5, scan_code: 0x6D, is_ext_scan_code: true },
        105 => Key { vk_code: 0x25, scan_code: 0x4B, is_ext_scan_code: true },
        106 => Key { vk_code: 0xA4, scan_code: 0x38, is_ext_scan_code: false },
        107 => Key { vk_code: 0xDB, scan_code: 0x1A, is_ext_scan_code: false },
        108 => Key { vk_code: 0x01, scan_code: 0x00, is_ext_scan_code: false },
        109 => Key { vk_code: 0xA2, scan_code: 0x1D, is_ext_scan_code: false },
        110 => Key { vk_code: 0xA0, scan_code: 0x2A, is_ext_scan_code: false },
        111 => Key { vk_code: 0x5B, scan_code: 0x5B, is_ext_scan_code: true },
        112 => Key { vk_code: 0x4D, scan_code: 0x32, is_ext_scan_code: false },
        113 => Key { vk_code: 0xB0, scan_code: 0x00, is_ext_scan_code: true },
        114 => Key { vk_code: 0xB3, scan_code: 0x00, is_ext_scan_code: true },
        115 => Key { vk_code: 0xB1, scan_code: 0x00, is_ext_scan_code: true },
        116 => Key { vk_code: 0xB2, scan_code: 0x24, is_ext_scan_code: true },
        117 => Key { vk_code: 0x12, scan_code: 0x38, is_ext_scan_code: false },
        118 => Key { vk_code: 0x04, scan_code: 0x00, is_ext_scan_code: false },
        119 => Key { vk_code: 0xBD, scan_code: 0x0C, is_ext_scan_code: false },
        120 => Key { vk_code: 0x1F, scan_code: 0x00, is_ext_scan_code: false },
        121 => Key { vk_code: 0x4E, scan_code: 0x31, is_ext_scan_code: false },
        122 => Key { vk_code: 0xFC, scan_code: 0x00, is_ext_scan_code: false },
        123 => Key { vk_code: 0x1D, scan_code: 0x00, is_ext_scan_code: false },
        124 => Key { vk_code: 0x60, scan_code: 0x52, is_ext_scan_code: false },
        125 => Key { vk_code: 0x61, scan_code: 0x4F, is_ext_scan_code: false },
        126 => Key { vk_code: 0x62, scan_code: 0x50, is_ext_scan_code: false },
        127 => Key { vk_code: 0x63, scan_code: 0x51, is_ext_scan_code: false },
        128 => Key { vk_code: 0x64, scan_code: 0x4B, is_ext_scan_code: false },
        129 => Key { vk_code: 0x65, scan_code: 0x4C, is_ext_scan_code: false },
        130 => Key { vk_code: 0x66, scan_code: 0x4D, is_ext_scan_code: false },
        131 => Key { vk_code: 0x67, scan_code: 0x47, is_ext_scan_code: false },
        132 => Key { vk_code: 0x68, scan_code: 0x48, is_ext_scan_code: false },
        133 => Key { vk_code: 0x69, scan_code: 0x49, is_ext_scan_code: false },
        134 => Key { vk_code: 0x0C, scan_code: 0x4C, is_ext_scan_code: false },
        135 => Key { vk_code: 0x2E, scan_code: 0x53, is_ext_scan_code: false },
        136 => Key { vk_code: 0x6F, scan_code: 0x35, is_ext_scan_code: true },
        137 => Key { vk_code: 0x6E, scan_code: 0x53, is_ext_scan_code: false },
        138 => Key { vk_code: 0x28, scan_code: 0x50, is_ext_scan_code: false },
        139 => Key { vk_code: 0x23, scan_code: 0x4F, is_ext_scan_code: false },
        140 => Key { vk_code: 0x0D, scan_code: 0x1C, is_ext_scan_code: true },
        141 => Key { vk_code: 0x24, scan_code: 0x47, is_ext_scan_code: false },
        142 => Key { vk_code: 0x2D, scan_code: 0x52, is_ext_scan_code: false },
        143 => Key { vk_code: 0x25, scan_code: 0x4B, is_ext_scan_code: false },
        144 => Key { vk_code: 0x90, scan_code: 0x45, is_ext_scan_code: true },
        145 => Key { vk_code: 0x13, scan_code: 0x45, is_ext_scan_code: true },
        146 => Key { vk_code: 0x6D, scan_code: 0x4A, is_ext_scan_code: false },
        147 => Key { vk_code: 0x6A, scan_code: 0x37, is_ext_scan_code: false },
        148 => Key { vk_code: 0x22, scan_code: 0x51, is_ext_scan_code: false },
        149 => Key { vk_code: 0x21, scan_code: 0x49, is_ext_scan_code: false },
        150 => Key { vk_code: 0x6B, scan_code: 0x4E, is_ext_scan_code: false },
        151 => Key { vk_code: 0x27, scan_code: 0x4D, is_ext_scan_code: false },
        152 => Key { vk_code: 0x26, scan_code: 0x48, is_ext_scan_code: false },
        153 => Key { vk_code: 0x4F, scan_code: 0x18, is_ext_scan_code: false },
        154 => Key { vk_code: 0xDF, scan_code: 0x00, is_ext_scan_code: false },
        155 => Key { vk_code: 0xFE, scan_code: 0x00, is_ext_scan_code: false },
        156 => Key { vk_code: 0x50, scan_code: 0x19, is_ext_scan_code: false },
        157 => Key { vk_code: 0xFD, scan_code: 0x00, is_ext_scan_code: false },
        158 => Key { vk_code: 0xE7, scan_code: 0x00, is_ext_scan_code: false },
        159 => Key { vk_code: 0x22, scan_code: 0x51, is_ext_scan_code: true },
        160 => Key { vk_code: 0x21, scan_code: 0x49, is_ext_scan_code: true },
        161 => Key { vk_code: 0x13, scan_code: 0x45, is_ext_scan_code: false },
        162 => Key { vk_code: 0xFA, scan_code: 0x00, is_ext_scan_code: false },
        163 => Key { vk_code: 0x00, scan_code: 0x4E, is_ext_scan_code: true },
        164 => Key { vk_code: 0x2A, scan_code: 0x00, is_ext_scan_code: false },
        165 => Key { vk_code: 0x2C, scan_code: 0x37, is_ext_scan_code: true },
        166 => Key { vk_code: 0xE5, scan_code: 0x00, is_ext_scan_code: false },
        167 => Key { vk_code: 0x51, scan_code: 0x10, is_ext_scan_code: false },
        168 => Key { vk_code: 0x52, scan_code: 0x13, is_ext_scan_code: false },
        169 => Key { vk_code: 0x27, scan_code: 0x4D, is_ext_scan_code: true },
        170 => Key { vk_code: 0xA5, scan_code: 0x38, is_ext_scan_code: true },
        171 => Key { vk_code: 0xDD, scan_code: 0x1B, is_ext_scan_code: false },
        172 => Key { vk_code: 0x02, scan_code: 0x00, is_ext_scan_code: false },
        173 => Key { vk_code: 0xA3, scan_code: 0x1D, is_ext_scan_code: true },
        174 => Key { vk_code: 0xA1, scan_code: 0x36, is_ext_scan_code: true },
        175 => Key { vk_code: 0x00, scan_code: 0x36, is_ext_scan_code: true },
        176 => Key { vk_code: 0x5C, scan_code: 0x5C, is_ext_scan_code: true },
        177 => Key { vk_code: 0x53, scan_code: 0x1F, is_ext_scan_code: false },
        178 => Key { vk_code: 0x91, scan_code: 0x46, is_ext_scan_code: false },
        179 => Key { vk_code: 0x29, scan_code: 0x00, is_ext_scan_code: false },
        180 => Key { vk_code: 0xBA, scan_code: 0x27, is_ext_scan_code: false },
        181 => Key { vk_code: 0x6C, scan_code: 0x00, is_ext_scan_code: false },
        182 => Key { vk_code: 0x10, scan_code: 0x2A, is_ext_scan_code: false },
        183 => Key { vk_code: 0xBF, scan_code: 0x35, is_ext_scan_code: false },
        184 => Key { vk_code: 0x5F, scan_code: 0x5F, is_ext_scan_code: true },
        185 => Key { vk_code: 0x20, scan_code: 0x39, is_ext_scan_code: false },
        186 => Key { vk_code: 0x2C, scan_code: 0x54, is_ext_scan_code: false },
        187 => Key { vk_code: 0x54, scan_code: 0x14, is_ext_scan_code: false },
        188 => Key { vk_code: 0x09, scan_code: 0x0F, is_ext_scan_code: false },
        189 => Key { vk_code: 0x55, scan_code: 0x16, is_ext_scan_code: false },
        190 => Key { vk_code: 0x00, scan_code: 0x00, is_ext_scan_code: false },
        191 => Key { vk_code: 0x26, scan_code: 0x48, is_ext_scan_code: true },
        192 => Key { vk_code: 0x56, scan_code: 0x2F, is_ext_scan_code: false },
        193 => Key { vk_code: 0xAE, scan_code: 0x00, is_ext_scan_code: true },
        194 => Key { vk_code: 0xAD, scan_code: 0x00, is_ext_scan_code: true },
        195 => Key { vk_code: 0xAF, scan_code: 0x00, is_ext_scan_code: true },
        196 => Key { vk_code: 0x57, scan_code: 0x11, is_ext_scan_code: false },
        197 => Key { vk_code: 0x58, scan_code: 0x2D, is_ext_scan_code: false },
        198 => Key { vk_code: 0x05, scan_code: 0x00, is_ext_scan_code: false },
        199 => Key { vk_code: 0x06, scan_code: 0x00, is_ext_scan_code: false },
        200 => Key { vk_code: 0x59, scan_code: 0x15, is_ext_scan_code: false },
        201 => Key { vk_code: 0x5A, scan_code: 0x2C, is_ext_scan_code: false },
        202 => Key { vk_code: 0xFB, scan_code: 0x62, is_ext_scan_code: false },
        203 => Key { vk_code: 0x00, scan_code: 0x39, is_ext_scan_code: true },
        _ => Key { vk_code: 0, scan_code: 0, is_ext_scan_code: false },
    }
}

/// The name of the key at position `i` of the key table.
pub fn key_name_at(i: u8) -> (r: &'static str)
    requires
        (i as usize) < MAX_KEYS,
    ensures
        r@ == key_name_spec(i),
{
    match i {
        0 => "\t",
        1 => "\u{1b}",
        2 => "0",
        3 => "1",
        4 => "2",
        5 => "3",
        6 => "4",
        7 => "5",
        8 => "6",
        9 => "7",
        10 => "8",
        11 => "9",
        12 => "<00>",
        13 => "A",
        14 => "ACCEPT",
        15 => "APOSTROPHE",
        16 => "APPLICATION",
        17 => "ATTN",
        18 => "B",
        19 => "BACKSLASH",
        20 => "BACKSLASH_2",
        21 => "BACKSPACE",
        22 => "BACKTICK",
        23 => "BREAK",
        24 => "BRIGHTNESS",
        25 => "BROWSER_BACK",
        26 => "BROWSER_FAVORITES",
        27 => "BROWSER_FORWARD",
        28 => "BROWSER_HOME",
        29 => "BROWSER_REFRESH",
        30 => "BROWSER_SEARCH",
        31 => "BROWSER_STOP",
        32 => "C",
        33 => "CAPS_LOCK",
        34 => "COMMA",
        35 => "CONVERT",
        36 => "CRSEL",
        37 => "CTRL",
        38 => "D",
        39 => "DELETE",
        40 => "DOT",
        41 => "DOWN",
        42 => "E",
        43 => "END",
        44 => "ENTER",
        45 => "EQ",
        46 => "EREOF",
        47 => "ESC",
        48 => "EXECUTE",
        49 => "EXSEL",
        50 => "F",
        51 => "F1",
        52 => "F10",
        53 => "F11",
        54 => "F12",
        55 => "F13",
        56 => "F14",
        57 => "F15",
        58 => "F16",
        59 => "F17",
        60 => "F18",
        61 => "F19",
        62 => "F2",
        63 => "F20",
        64 => "F21",
        65 => "F22",
        66 => "F23",
        67 => "F24",
        68 => "F3",
        69 => "F4",
        70 => "F5",
        71 => "F6",
        72 => "F7",
        73 => "F8",
        74 => "F9",
        75 => "FINAL",
        76 => "FN_BROWSER_HOME",
        77 => "FN_BROWSER_SEARCH",
        78 => "FN_LAUNCH_APP1",
        79 => "FN_LAUNCH_APP2",
        80 => "FN_LAUNCH_MAIL",
        81 => "FN_MEDIA_NEXT_TRACK",
        82 => "FN_MEDIA_PLAY_PAUSE",
        83 => "FN_MEDIA_PREV_TRACK",
        84 => "FN_VOLUME_DOWN",
        85 => "FN_VOLUME_MUTE",
        86 => "FN_VOLUME_UP",
        87 => "G",
        88 => "H",
        89 => "HANJA",
        90 => "HELP",
        91 => "HOME",
        92 => "I",
        93 => "IME_OFF",
        94 => "IME_ON",
        95 => "INSERT",
        96 => "J",
        97 => "JUNJA",
        98 => "K",
        99 => "KANA",
        100 => "L",
        101 => "LAUNCH_APP1",
        102 => "LAUNCH_APP2",
        103 => "LAUNCH_MAIL",
        104 => "LAUNCH_MEDIA_SELECT",
        105 => "LEFT",
        106 => "LEFT_ALT",
        107 => "LEFT_BRACKET",
        108 => "LEFT_BUTTON",
        109 => "LEFT_CTRL",
        110 => "LEFT_SHIFT",
        111 => "LEFT_WIN",
        112 => "M",
        113 => "MEDIA_NEXT_TRACK",
        114 => "MEDIA_PLAY_PAUSE",
        115 => "MEDIA_PREV_TRACK",
        116 => "MEDIA_STOP",
        117 => "MENU",
        118 => "MIDDLE_BUTTON",
        119 => "MINUS",
        120 => "MODE_CHANGE",
        121 => "N",
        122 => "NONAME",
        123 => "NON_CONVERT",
        124 => "NUM_0",
        125 => "NUM_1",
        126 => "NUM_2",
        127 => "NUM_3",
        128 => "NUM_4",
        129 => "NUM_5",
        130 => "NUM_6",
        131 => "NUM_7",
        132 => "NUM_8",
        133 => "NUM_9",
        134 => "NUM_CLEAR",
        135 => "NUM_DELETE",
        136 => "NUM_DIV",
        137 => "NUM_DOT",
        138 => "NUM_DOWN",
        139 => "NUM_END",
        140 => "NUM_ENTER",
        141 => "NUM_HOME",
        142 => "NUM_INSERT",
        143 => "NUM_LEFT",
        144 => "NUM_LOCK",
        145 => "NUM_LOCK_2",
        146 => "NUM_MINUS",
        147 => "NUM_MUL",
        148 => "NUM_PAGE_DOWN",
        149 => "NUM_PAGE_UP",
        150 => "NUM_PLUS",
        151 => "NUM_RIGHT",
        152 => "NUM_UP",
        153 => "O",
        154 => "OEM_8",
        155 => "OEM_CLEAR",
        156 => "P",
        157 => "PA1",
        158 => "PACKET",
        159 => "PAGE_DOWN",
        160 => "PAGE_UP",
        161 => "PAUSE",
        162 => "PLAY",
        163 => "PLUS",
        164 => "PRINT",
        165 => "PRINT_SCREEN",
        166 => "PROCESS_KEY",
        167 => "Q",
        168 => "R",
        169 => "RIGHT",
        170 => "RIGHT_ALT",
        171 => "RIGHT_BRACKET",
        172 => "RIGHT_BUTTON",
        173 => "RIGHT_CTRL",
        174 => "RIGHT_SHIFT",
        175 => "RIGHT_SHIFT_2",
        176 => "RIGHT_WIN",
        177 => "S",
        178 => "SCROLL_LOCK",
        179 => "SELECT",
        180 => "SEMICOLON",
        181 => "SEPARATOR",
        182 => "SHIFT",
        183 => "SLASH",
        184 => "SLEEP",
        185 => "SPACE",
        186 => "SYS_REQ",
        187 => "T",
        188 => "TAB",
        189 => "U",
        190 => "UNASSIGNED",
        191 => "UP",
        192 => "V",
        193 => "VOLUME_DOWN",
        194 => "VOLUME_MUTE",
        195 => "VOLUME_UP",
        196 => "W",
        197 => "X",
        198 => "XBUTTON1",
        199 => "XBUTTON2",
        200 => "Y",
        201 => "Z",
        202 => "ZOOM",
        203 => "_",
        _ => "",
    }
}

/// The key at position `i` of the key table.
pub fn key_at(i: u8) -> (r: Key)
    requires
        (i as usize) < MAX_KEYS,
    ensures
        r == key_spec(i),
{
    match i {
        0 => Key { vk_code: 0x00, scan_code: 0x0F, is_ext_scan_code: true },
        1 => Key { vk_code: 0x00, scan_code: 0x01, is_ext_scan_code: true },
        2 => Key { vk_code: 0x30, scan_code: 0x0B, is_ext_scan_code: false },
        3 => Key { vk_code: 0x31, scan_code: 0x02, is_ext_scan_code: false },
        4 => Key { vk_code: 0x32, scan_code: 0x03, is_ext_scan_code: false },
        5 => Key { vk_code: 0x33, scan_code: 0x04, is_ext_scan_code: false },
        6 => Key { vk_code: 0x34, scan_code: 0x05, is_ext_scan_code: false },
        7 => Key { vk_code: 0x35, scan_code: 0x06, is_ext_scan_code: false },
        8 => Key { vk_code: 0x36, scan_code: 0x07, is_ext_scan_code: false },
        9 => Key { vk_code: 0x37, scan_code: 0x08, is_ext_scan_code: false },
        10 => Key { vk_code: 0x38, scan_code: 0x09, is_ext_scan_code: false },
        11 => Key { vk_code: 0x39, scan_code: 0x0A, is_ext_scan_code: false },
        12 => Key { vk_code: 0x00, scan_code: 0x54, is_ext_scan_code: true },
        13 => Key { vk_code: 0x41, scan_code: 0x1E, is_ext_scan_code: false },
        14 => Key { vk_code: 0x1E, scan_code: 0x00, is_ext_scan_code: false },
        15 => Key { vk_code: 0xDE, scan_code: 0x28, is_ext_scan_code: false },
        16 => Key { vk_code: 0x5D, scan_code: 0x5D, is_ext_scan_code: true },
        17 => Key { vk_code: 0xF6, scan_code: 0x00, is_ext_scan_code: false },
        18 => Key { vk_code: 0x42, scan_code: 0x30, is_ext_scan_code: false },
        19 => Key { vk_code: 0xDC, scan_code: 0x2B, is_ext_scan_code: false },
        20 => Key { vk_code: 0xE2, scan_code: 0x56, is_ext_scan_code: false },
        21 => Key { vk_code: 0x08, scan_code: 0x0E, is_ext_scan_code: false },
        22 => Key { vk_code: 0xC0, scan_code: 0x29, is_ext_scan_code: false },
        23 => Key { vk_code: 0x03, scan_code: 0x46, is_ext_scan_code: true },
        24 => Key { vk_code: 0x00, scan_code: 0x2B, is_ext_scan_code: true },
        25 => Key { vk_code: 0xA6, scan_code: 0x6A, is_ext_scan_code: true },
        26 => Key { vk_code: 0xAB, scan_code: 0x66, is_ext_scan_code: true },
        27 => Key { vk_code: 0xA7, scan_code: 0x69, is_ext_scan_code: true },
        28 => Key { vk_code: 0xAC, scan_code: 0x00, is_ext_scan_code: true },
        29 => Key { vk_code: 0xA8, scan_code: 0x67, is_ext_scan_code: true },
        30 => Key { vk_code: 0xAA, scan_code: 0x00, is_ext_scan_code: true },
        31 => Key { vk_code: 0xA9, scan_code: 0x68, is_ext_scan_code: true },
        32 => Key { vk_code: 0x43, scan_code: 0x2E, is_ext_scan_code: false },
        33 => Key { vk_code: 0x14, scan_code: 0x3A, is_ext_scan_code: false },
        34 => Key { vk_code: 0xBC, scan_code: 0x33, is_ext_scan_code: false },
        35 => Key { vk_code: 0x1C, scan_code: 0x00, is_ext_scan_code: false },
        36 => Key { vk_code: 0xF7, scan_code: 0x00, is_ext_scan_code: false },
        37 => Key { vk_code: 0x11, scan_code: 0x1D, is_ext_scan_code: false },
        38 => Key { vk_code: 0x44, scan_code: 0x20, is_ext_scan_code: false },
        39 => Key { vk_code: 0x2E, scan_code: 0x53, is_ext_scan_code: true },
        40 => Key { vk_code: 0xBE, scan_code: 0x34, is_ext_scan_code: false },
        41 => Key { vk_code: 0x28, scan_code: 0x50, is_ext_scan_code: true },
        42 => Key { vk_code: 0x45, scan_code: 0x12, is_ext_scan_code: false },
        43 => Key { vk_code: 0x23, scan_code: 0x4F, is_ext_scan_code: true },
        44 => Key { vk_code: 0x0D, scan_code: 0x1C, is_ext_scan_code: false },
        45 => Key { vk_code: 0xBB, scan_code: 0x0D, is_ext_scan_code: false },
        46 => Key { vk_code: 0xF9, scan_code: 0x5D, is_ext_scan_code: false },
        47 => Key { vk_code: 0x1B, scan_code: 0x01, is_ext_scan_code: false },
        48 => Key { vk_code: 0x2B, scan_code: 0x00, is_ext_scan_code: false },
        49 => Key { vk_code: 0xF8, scan_code: 0x00, is_ext_scan_code: false },
        50 => Key { vk_code: 0x46, scan_code: 0x21, is_ext_scan_code: false },
        51 => Key { vk_code: 0x70, scan_code: 0x3B, is_ext_scan_code: false },
        52 => Key { vk_code: 0x79, scan_code: 0x44, is_ext_scan_code: false },
        53 => Key { vk_code: 0x7A, scan_code: 0x57, is_ext_scan_code: false },
        54 => Key { vk_code: 0x7B, scan_code: 0x58, is_ext_scan_code: false },
        55 => Key { vk_code: 0x7C, scan_code: 0x64, is_ext_scan_code: false },
        56 => Key { vk_code: 0x7D, scan_code: 0x65, is_ext_scan_code: false },
        57 => Key { vk_code: 0x7E, scan_code: 0x66, is_ext_scan_code: false },
        58 => Key { vk_code: 0x7F, scan_code: 0x67, is_ext_scan_code: false },
        59 => Key { vk_code: 0x80, scan_code: 0x68, is_ext_scan_code: false },
        60 => Key { vk_code: 0x81, scan_code: 0x69, is_ext_scan_code: false },
        61 => Key { vk_code: 0x82, scan_code: 0x6A, is_ext_scan_code: false },
        62 => Key { vk_code: 0x71, scan_code: 0x3C, is_ext_scan_code: false },
        63 => Key { vk_code: 0x83, scan_code: 0x6B, is_ext_scan_code: false },
        64 => Key { vk_code: 0x84, scan_code: 0x6C, is_ext_scan_code: false },
        65 => Key { vk_code: 0x85, scan_code: 0x6D, is_ext_scan_code: false },
        66 => Key { vk_code: 0x86, scan_code: 0x6E, is_ext_scan_code: false },
        67 => Key { vk_code: 0x87, scan_code: 0x76, is_ext_scan_code: false },
        68 => Key { vk_code: 0x72, scan_code: 0x3D, is_ext_scan_code: false },
        69 => Key { vk_code: 0x73, scan_code: 0x3E, is_ext_scan_code: false },
        70 => Key { vk_code: 0x74, scan_code: 0x3F, is_ext_scan_code: false },
        71 => Key { vk_code: 0x75, scan_code: 0x40, is_ext_scan_code: false },
        72 => Key { vk_code: 0x76, scan_code: 0x41, is_ext_scan_code: false },
        73 => Key { vk_code: 0x77, scan_code: 0x42, is_ext_scan_code: false },
        74 => Key { vk_code: 0x78, scan_code: 0x43, is_ext_scan_code: false },
        75 => Key { vk_code: 0x18, scan_code: 0x00, is_ext_scan_code: false },
        76 => Key { vk_code: 0xAC, scan_code: 0x32, is_ext_scan_code: true },
        77 => Key { vk_code: 0xAA, scan_code: 0x65, is_ext_scan_code: true },
        78 => Key { vk_code: 0xB6, scan_code: 0x6B, is_ext_scan_code: true },
        79 => Key { vk_code: 0xB7, scan_code: 0x21, is_ext_scan_code: true },
        80 => Key { vk_code: 0xB4, scan_code: 0x6C, is_ext_scan_code: true },
        81 => Key { vk_code: 0xB0, scan_code: 0x19, is_ext_scan_code: true },
        82 => Key { vk_code: 0xB3, scan_code: 0x22, is_ext_scan_code: true },
        83 => Key { vk_code: 0xB1, scan_code: 0x10, is_ext_scan_code: true },
        84 => Key { vk_code: 0xAE, scan_code: 0x2E, is_ext_scan_code: true },
        85 => Key { vk_code: 0xAD, scan_code: 0x20, is_ext_scan_code: true },
        86 => Key { vk_code: 0xAF, scan_code: 0x30, is_ext_scan_code: true },
        87 => Key { vk_code: 0x47, scan_code: 0x22, is_ext_scan_code: false },
        88 => Key { vk_code: 0x48, scan_code: 0x23, is_ext_scan_code: false },
        89 => Key { vk_code: 0x19, scan_code: 0x00, is_ext_scan_code: false },
        90 => Key { vk_code: 0x2F, scan_code: 0x63, is_ext_scan_code: false },
        91 => Key { vk_code: 0x24, scan_code: 0x47, is_ext_scan_code: true },
        92 => Key { vk_code: 0x49, scan_code: 0x17, is_ext_scan_code: false },
        93 => Key { vk_code: 0x1A, scan_code: 0x00, is_ext_scan_code: false },
        94 => Key { vk_code: 0x16, scan_code: 0x00, is_ext_scan_code: false },
        95 => Key { vk_code: 0x2D, scan_code: 0x52, is_ext_scan_code: true },
        96 => Key { vk_code: 0x4A, scan_code: 0x24, is_ext_scan_code: false },
        97 => Key { vk_code: 0x17, scan_code: 0x00, is_ext_scan_code: false },
        98 => Key { vk_code: 0x4B, scan_code: 0x25, is_ext_scan_code: false },
        99 => Key { vk_code: 0x15, scan_code: 0x00, is_ext_scan_code: false },
        100 => Key { vk_code: 0x4C, scan_code: 0x26, is_ext_scan_code: false },
        101 => Key { vk_code: 0xB6, scan_code: 0x00, is_ext_scan_code: true },
        102 => Key { vk_code: 0xB7, scan_code: 0x00, is_ext_scan_code: true },
        103 => Key { vk_code: 0xB4, scan_code: 0x00, is_ext_scan_code: true },
        104 => Key { vk_code: 0xB5, scan_code: 0x6D, is_ext_scan_code: true },
        105 => Key { vk_code: 0x25, scan_code: 0x4B, is_ext_scan_code: true },
        106 => Key { vk_code: 0xA4, scan_code: 0x38, is_ext_scan_code: false },
        107 => Key { vk_code: 0xDB, scan_code: 0x1A, is_ext_scan_code: false },
        108 => Key { vk_code: 0x01, scan_code: 0x00, is_ext_scan_code: false },
        109 => Key { vk_code: 0xA2, scan_code: 0x1D, is_ext_scan_code: false },
        110 => Key { vk_code: 0xA0, scan_code: 0x2A, is_ext_scan_code: false },
        111 => Key { vk_code: 0x5B, scan_code: 0x5B, is_ext_scan_code: true },
        112 => Key { vk_code: 0x4D, scan_code: 0x32, is_ext_scan_code: false },
        113 => Key { vk_code: 0xB0, scan_code: 0x00, is_ext_scan_code: true },
        114 => Key { vk_code: 0xB3, scan_code: 0x00, is_ext_scan_code: true },
        115 => Key { vk_code: 0xB1, scan_code: 0x00, is_ext_scan_code: true },
        116 => Key { vk_code: 0xB2, scan_code: 0x24, is_ext_scan_code: true },
        117 => Key { vk_code: 0x12, scan_code: 0x38, is_ext_scan_code: false },
        118 => Key { vk_code: 0x04, scan_code: 0x00, is_ext_scan_code: false },
        119 => Key { vk_code: 0xBD, scan_code: 0x0C, is_ext_scan_code: false },
        120 => Key { vk_code: 0x1F, scan_code: 0x00, is_ext_scan_code: false },
        121 => Key { vk_code: 0x4E, scan_code: 0x31, is_ext_scan_code: false },
        122 => Key { vk_code: 0xFC, scan_code: 0x00, is_ext_scan_code: false },
        123 => Key { vk_code: 0x1D, scan_code: 0x00, is_ext_scan_code: false },
        124 => Key { vk_code: 0x60, scan_code: 0x52, is_ext_scan_code: false },
        125 => Key { vk_code: 0x61, scan_code: 0x4F, is_ext_scan_code: false },
        126 => Key { vk_code: 0x62, scan_code: 0x50, is_ext_scan_code: false },
        127 => Key { vk_code: 0x63, scan_code: 0x51, is_ext_scan_code: false },
        128 => Key { vk_code: 0x64, scan_code: 0x4B, is_ext_scan_code: false },
        129 => Key { vk_code: 0x65, scan_code: 0x4C, is_ext_scan_code: false },
        130 => Key { vk_code: 0x66, scan_code: 0x4D, is_ext_scan_code: false },
        131 => Key { vk_code: 0x67, scan_code: 0x47, is_ext_scan_code: false },
        132 => Key { vk_code: 0x68, scan_code: 0x48, is_ext_scan_code: false },
        133 => Key { vk_code: 0x69, scan_code: 0x49, is_ext_scan_code: false },
        134 => Key { vk_code: 0x0C, scan_code: 0x4C, is_ext_scan_code: false },
        135 => Key { vk_code: 0x2E, scan_code: 0x53, is_ext_scan_code: false },
        136 => Key { vk_code: 0x6F, scan_code: 0x35, is_ext_scan_code: true },
        137 => Key { vk_code: 0x6E, scan_code: 0x53, is_ext_scan_code: false },
        138 => Key { vk_code: 0x28, scan_code: 0x50, is_ext_scan_code: false },
        139 => Key { vk_code: 0x23, scan_code: 0x4F, is_ext_scan_code: false },
        140 => Key { vk_code: 0x0D, scan_code: 0x1C, is_ext_scan_code: true },
        141 => Key { vk_code: 0x24, scan_code: 0x47, is_ext_scan_code: false },
        142 => Key { vk_code: 0x2D, scan_code: 0x52, is_ext_scan_code: false },
        143 => Key { vk_code: 0x25, scan_code: 0x4B, is_ext_scan_code: false },
        144 => Key { vk_code: 0x90, scan_code: 0x45, is_ext_scan_code: true },
        145 => Key { vk_code: 0x13, scan_code: 0x45, is_ext_scan_code: true },
        146 => Key { vk_code: 0x6D, scan_code: 0x4A, is_ext_scan_code: false },
        147 => Key { vk_code: 0x6A, scan_code: 0x37, is_ext_scan_code: false },
        148 => Key { vk_code: 0x22, scan_code: 0x51, is_ext_scan_code: false },
        149 => Key { vk_code: 0x21, scan_code: 0x49, is_ext_scan_code: false },
        150 => Key { vk_code: 0x6B, scan_code: 0x4E, is_ext_scan_code: false },
        151 => Key { vk_code: 0x27, scan_code: 0x4D, is_ext_scan_code: false },
        152 => Key { vk_code: 0x26, scan_code: 0x48, is_ext_scan_code: false },
        153 => Key { vk_code: 0x4F, scan_code: 0x18, is_ext_scan_code: false },
        154 => Key { vk_code: 0xDF, scan_code: 0x00, is_ext_scan_code: false },
        155 => Key { vk_code: 0xFE, scan_code: 0x00, is_ext_scan_code: false },
        156 => Key { vk_code: 0x50, scan_code: 0x19, is_ext_scan_code: false },
        157 => Key { vk_code: 0xFD, scan_code: 0x00, is_ext_scan_code: false },
        158 => Key { vk_code: 0xE7, scan_code: 0x00, is_ext_scan_code: false },
        159 => Key { vk_code: 0x22, scan_code: 0x51, is_ext_scan_code: true },
        160 => Key { vk_code: 0x21, scan_code: 0x49, is_ext_scan_code: true },
        161 => Key { vk_code: 0x13, scan_code: 0x45, is_ext_scan_code: false },
        162 => Key { vk_code: 0xFA, scan_code: 0x00, is_ext_scan_code: false },
        163 => Key { vk_code: 0x00, scan_code: 0x4E, is_ext_scan_code: true },
        164 => Key { vk_code: 0x2A, scan_code: 0x00, is_ext_scan_code: false },
        165 => Key { vk_code: 0x2C, scan_code: 0x37, is_ext_scan_code: true },
        166 => Key { vk_code: 0xE5, scan_code: 0x00, is_ext_scan_code: false },
        167 => Key { vk_code: 0x51, scan_code: 0x10, is_ext_scan_code: false },
        168 => Key { vk_code: 0x52, scan_code: 0x13, is_ext_scan_code: false },
        169 => Key { vk_code: 0x27, scan_code: 0x4D, is_ext_scan_code: true },
        170 => Key { vk_code: 0xA5, scan_code: 0x38, is_ext_scan_code: true },
        171 => Key { vk_code: 0xDD, scan_code: 0x1B, is_ext_scan_code: false },
        172 => Key { vk_code: 0x02, scan_code: 0x00, is_ext_scan_code: false },
        173 => Key { vk_code: 0xA3, scan_code: 0x1D, is_ext_scan_code: true },
        174 => Key { vk_code: 0xA1, scan_code: 0x36, is_ext_scan_code: true },
        175 => Key { vk_code: 0x00, scan_code: 0x36, is_ext_scan_code: true },
        176 => Key { vk_code: 0x5C, scan_code: 0x5C, is_ext_scan_code: true },
        177 => Key { vk_code: 0x53, scan_code: 0x1F, is_ext_scan_code: false },
        178 => Key { vk_code: 0x91, scan_code: 0x46, is_ext_scan_code: false },
        179 => Key { vk_code: 0x29, scan_code: 0x00, is_ext_scan_code: false },
        180 => Key { vk_code: 0xBA, scan_code: 0x27, is_ext_scan_code: false },
        181 => Key { vk_code: 0x6C, scan_code: 0x00, is_ext_scan_code: false },
        182 => Key { vk_code: 0x10, scan_code: 0x2A, is_ext_scan_code: false },
        183 => Key { vk_code: 0xBF, scan_code: 0x35, is_ext_scan_code: false },
        184 => Key { vk_code: 0x5F, scan_code: 0x5F, is_ext_scan_code: true },
        185 => Key { vk_code: 0x20, scan_code: 0x39, is_ext_scan_code: false },
        186 => Key { vk_code: 0x2C, scan_code: 0x54, is_ext_scan_code: false },
        187 => Key { vk_code: 0x54, scan_code: 0x14, is_ext_scan_code: false },
        188 => Key { vk_code: 0x09, scan_code: 0x0F, is_ext_scan_code: false },
        189 => Key { vk_code: 0x55, scan_code: 0x16, is_ext_scan_code: false },
        190 => Key { vk_code: 0x00, scan_code: 0x00, is_ext_scan_code: false },
        191 => Key { vk_code: 0x26, scan_code: 0x48, is_ext_scan_code: true },
        192 => Key { vk_code: 0x56, scan_code: 0x2F, is_ext_scan_code: false },
        193 => Key { vk_code: 0xAE, scan_code: 0x00, is_ext_scan_code: true },
        194 => Key { vk_code: 0xAD, scan_code: 0x00, is_ext_scan_code: true },
        195 => Key { vk_code: 0xAF, scan_code: 0x00, is_ext_scan_code: true },
        196 => Key { vk_code: 0x57, scan_code: 0x11, is_ext_scan_code: false },
        197 => Key { vk_code: 0x58, scan_code: 0x2D, is_ext_scan_code: false },
        198 => Key { vk_code: 0x05, scan_code: 0x00, is_ext_scan_code: false },
        199 => Key { vk_code: 0x06, scan_code: 0x00, is_ext_scan_code: false },
        200 => Key { vk_code: 0x59, scan_code: 0x15, is_ext_scan_code: false },
        201 => Key { vk_code: 0x5A, scan_code: 0x2C, is_ext_scan_code: false },
        202 => Key { vk_code: 0xFB, scan_code: 0x62, is_ext_scan_code: false },
        203 => Key { vk_code: 0x00, scan_code: 0x39, is_ext_scan_code: true },
        _ => Key { vk_code: 0, scan_code: 0, is_ext_scan_code: false },
    }
}

/// The name of the virtual key with code `code`.
pub closed spec fn virtual_key_name_spec(code: u8) -> Seq<char> {
    match code {
        0x00 => "UNASSIGNED"@,
        0x01 => "VK_LBUTTON"@,
        0x02 => "VK_RBUTTON"@,
        0x03 => "VK_CANCEL"@,
        0x04 => "VK_MBUTTON"@,
        0x05 => "VK_XBUTTON1"@,
        0x06 => "VK_XBUTTON2"@,
        0x07 => "UNASSIGNED"@,
        0x08 => "VK_BACK"@,
        0x09 => "VK_TAB"@,
        0x0A => "UNASSIGNED"@,
        0x0B => "UNASSIGNED"@,
        0x0C => "VK_CLEAR"@,
        0x0D => "VK_RETURN"@,
        0x0E => "UNASSIGNED"@,
        0x0F => "UNASSIGNED"@,
        0x10 => "VK_SHIFT"@,
        0x11 => "VK_CONTROL"@,
        0x12 => "VK_MENU"@,
        0x13 => "VK_PAUSE"@,
        0x14 => "VK_CAPITAL"@,
        0x15 => "VK_KANA"@,
        0x16 => "VK_IME_ON"@,
        0x17 => "VK_JUNJA"@,
        0x18 => "VK_FINAL"@,
        0x19 => "VK_HANJA"@,
        0x1A => "VK_IME_OFF"@,
        0x1B => "VK_ESCAPE"@,
        0x1C => "VK_CONVERT"@,
        0x1D => "VK_NONCONVERT"@,
        0x1E => "VK_ACCEPT"@,
        0x1F => "VK_MODECHANGE"@,
        0x20 => "VK_SPACE"@,
        0x21 => "VK_PRIOR"@,
        0x22 => "VK_NEXT"@,
        0x23 => "VK_END"@,
        0x24 => "VK_HOME"@,
        0x25 => "VK_LEFT"@,
        0x26 => "VK_UP"@,
        0x27 => "VK_RIGHT"@,
        0x28 => "VK_DOWN"@,
        0x29 => "VK_SELECT"@,
        0x2A => "VK_PRINT"@,
        0x2B => "VK_EXECUTE"@,
        0x2C => "VK_SNAPSHOT"@,
        0x2D => "VK_INSERT"@,
        0x2E => "VK_DELETE"@,
        0x2F => "VK_HELP"@,
        0x30 => "VK_0"@,
        0x31 => "VK_1"@,
        0x32 => "VK_2"@,
        0x33 => "VK_3"@,
        0x34 => "VK_4"@,
        0x35 => "VK_5"@,
        0x36 => "VK_6"@,
        0x37 => "VK_7"@,
        0x38 => "VK_8"@,
        0x39 => "VK_9"@,
        0x3A => "UNASSIGNED"@,
        0x3B => "UNASSIGNED"@,
        0x3C => "UNASSIGNED"@,
        0x3D => "UNASSIGNED"@,
        0x3E => "UNASSIGNED"@,
        0x3F => "UNASSIGNED"@,
        0x40 => "UNASSIGNED"@,
        0x41 => "VK_A"@,
        0x42 => "VK_B"@,
        0x43 => "VK_C"@,
        0x44 => "VK_D"@,
        0x45 => "VK_E"@,
        0x46 => "VK_F"@,
        0x47 => "VK_G"@,
        0x48 => "VK_H"@,
        0x49 => "VK_I"@,
        0x4A => "VK_J"@,
        0x4B => "VK_K"@,
        0x4C => "VK_L"@,
        0x4D => "VK_M"@,
        0x4E => "VK_N"@,
        0x4F => "VK_O"@,
        0x50 => "VK_P"@,
        0x51 => "VK_Q"@,
        0x52 => "VK_R"@,
        0x53 => "VK_S"@,
        0x54 => "VK_T"@,
        0x55 => "VK_U"@,
        0x56 => "VK_V"@,
        0x57 => "VK_W"@,
        0x58 => "VK_X"@,
        0x59 => "VK_Y"@,
        0x5A => "VK_Z"@,
        0x5B => "VK_LWIN"@,
        0x5C => "VK_RWIN"@,
        0x5D => "VK_APPS"@,
        0x5E => "UNASSIGNED"@,
        0x5F => "VK_SLEEP"@,
        0x60 => "VK_NUMPAD0"@,
        0x61 => "VK_NUMPAD1"@,
        0x62 => "VK_NUMPAD2"@,
        0x63 => "VK_NUMPAD3"@,
        0x64 => "VK_NUMPAD4"@,
        0x65 => "VK_NUMPAD5"@,
        0x66 => "VK_NUMPAD6"@,
        0x67 => "VK_NUMPAD7"@,
        0x68 => "VK_NUMPAD8"@,
        0x69 => "VK_NUMPAD9"@,
        0x6A => "VK_MULTIPLY"@,
        0x6B => "VK_ADD"@,
        0x6C => "VK_SEPARATOR"@,
        0x6D => "VK_SUBTRACT"@,
        0x6E => "VK_DECIMAL"@,
        0x6F => "VK_DIVIDE"@,
        0x70 => "VK_F1"@,
        0x71 => "VK_F2"@,
        0x72 => "VK_F3"@,
        0x73 => "VK_F4"@,
        0x74 => "VK_F5"@,
        0x75 => "VK_F6"@,
        0x76 => "VK_F7"@,
        0x77 => "VK_F8"@,
        0x78 => "VK_F9"@,
        0x79 => "VK_F10"@,
        0x7A => "VK_F11"@,
        0x7B => "VK_F12"@,
        0x7C => "VK_F13"@,
        0x7D => "VK_F14"@,
        0x7E => "VK_F15"@,
        0x7F => "VK_F16"@,
        0x80 => "VK_F17"@,
        0x81 => "VK_F18"@,
        0x82 => "VK_F19"@,
        0x83 => "VK_F20"@,
        0x84 => "VK_F21"@,
        0x85 => "VK_F22"@,
        0x86 => "VK_F23"@,
        0x87 => "VK_F24"@,
        0x88 => "UNASSIGNED"@,
        0x89 => "UNASSIGNED"@,
        0x8A => "UNASSIGNED"@,
        0x8B => "UNASSIGNED"@,
        0x8C => "UNASSIGNED"@,
        0x8D => "UNASSIGNED"@,
        0x8E => "UNASSIGNED"@,
        0x8F => "UNASSIGNED"@,
        0x90 => "VK_NUMLOCK"@,
        0x91 => "VK_SCROLL"@,
        0x92 => "UNASSIGNED"@,
        0x93 => "UNASSIGNED"@,
        0x94 => "UNASSIGNED"@,
        0x95 => "UNASSIGNED"@,
        0x96 => "UNASSIGNED"@,
        0x97 => "UNASSIGNED"@,
        0x98 => "UNASSIGNED"@,
        0x99 => "UNASSIGNED"@,
        0x9A => "UNASSIGNED"@,
        0x9B => "UNASSIGNED"@,
        0x9C => "UNASSIGNED"@,
        0x9D => "UNASSIGNED"@,
        0x9E => "UNASSIGNED"@,
        0x9F => "UNASSIGNED"@,
        0xA0 => "VK_LSHIFT"@,
        0xA1 => "VK_RSHIFT"@,
        0xA2 => "VK_LCONTROL"@,
        0xA3 => "VK_RCONTROL"@,
        0xA4 => "VK_LMENU"@,
        0xA5 => "VK_RMENU"@,
        0xA6 => "VK_BROWSER_BACK"@,
        0xA7 => "VK_BROWSER_FORWARD"@,
        0xA8 => "VK_BROWSER_REFRESH"@,
        0xA9 => "VK_BROWSER_STOP"@,
        0xAA => "VK_BROWSER_SEARCH"@,
        0xAB => "VK_BROWSER_FAVORITES"@,
        0xAC => "VK_BROWSER_HOME"@,
        0xAD => "VK_VOLUME_MUTE"@,
        0xAE => "VK_VOLUME_DOWN"@,
        0xAF => "VK_VOLUME_UP"@,
        0xB0 => "VK_MEDIA_NEXT_TRACK"@,
        0xB1 => "VK_MEDIA_PREV_TRACK"@,
        0xB2 => "VK_MEDIA_STOP"@,
        0xB3 => "VK_MEDIA_PLAY_PAUSE"@,
        0xB4 => "VK_LAUNCH_MAIL"@,
        0xB5 => "VK_LAUNCH_MEDIA_SELECT"@,
        0xB6 => "VK_LAUNCH_APP1"@,
        0xB7 => "VK_LAUNCH_APP2"@,
        0xB8 => "UNASSIGNED"@,
        0xB9 => "UNASSIGNED"@,
        0xBA => "VK_OEM_1"@,
        0xBB => "VK_OEM_PLUS"@,
        0xBC => "VK_OEM_COMMA"@,
        0xBD => "VK_OEM_MINUS"@,
        0xBE => "VK_OEM_PERIOD"@,
        0xBF => "VK_OEM_2"@,
        0xC0 => "VK_OEM_3"@,
        0xC1 => "UNASSIGNED"@,
        0xC2 => "UNASSIGNED"@,
        0xC3 => "UNASSIGNED"@,
        0xC4 => "UNASSIGNED"@,
        0xC5 => "UNASSIGNED"@,
        0xC6 => "UNASSIGNED"@,
        0xC7 => "UNASSIGNED"@,
        0xC8 => "UNASSIGNED"@,
        0xC9 => "UNASSIGNED"@,
        0xCA => "UNASSIGNED"@,
        0xCB => "UNASSIGNED"@,
        0xCC => "UNASSIGNED"@,
        0xCD => "UNASSIGNED"@,
        0xCE => "UNASSIGNED"@,
        0xCF => "UNASSIGNED"@,
        0xD0 => "UNASSIGNED"@,
        0xD1 => "UNASSIGNED"@,
        0xD2 => "UNASSIGNED"@,
        0xD3 => "UNASSIGNED"@,
        0xD4 => "UNASSIGNED"@,
        0xD5 => "UNASSIGNED"@,
        0xD6 => "UNASSIGNED"@,
        0xD7 => "UNASSIGNED"@,
        0xD8 => "UNASSIGNED"@,
        0xD9 => "UNASSIGNED"@,
        0xDA => "UNASSIGNED"@,
        0xDB => "VK_OEM_4"@,
        0xDC => "VK_OEM_5"@,
        0xDD => "VK_OEM_6"@,
        0xDE => "VK_OEM_7"@,
        0xDF => "VK_OEM_8"@,
        0xE0 => "UNASSIGNED"@,
        0xE1 => "UNASSIGNED"@,
        0xE2 => "VK_OEM_102"@,
        0xE3 => "UNASSIGNED"@,
        0xE4 => "UNASSIGNED"@,
        0xE5 => "VK_PROCESSKEY"@,
        0xE6 => "UNASSIGNED"@,
        0xE7 => "VK_PACKET"@,
        0xE8 => "UNASSIGNED"@,
        0xE9 => "UNASSIGNED"@,
        0xEA => "UNASSIGNED"@,
        0xEB => "UNASSIGNED"@,
        0xEC => "UNASSIGNED"@,
        0xED => "UNASSIGNED"@,
        0xEE => "UNASSIGNED"@,
        0xEF => "UNASSIGNED"@,
        0xF0 => "UNASSIGNED"@,
        0xF1 => "UNASSIGNED"@,
        0xF2 => "UNASSIGNED"@,
        0xF3 => "UNASSIGNED"@,
        0xF4 => "UNASSIGNED"@,
        0xF5 => "UNASSIGNED"@,
        0xF6 => "VK_ATTN"@,
        0xF7 => "VK_CRSEL"@,
        0xF8 => "VK_EXSEL"@,
        0xF9 => "VK_EREOF"@,
        0xFA => "VK_PLAY"@,
        0xFB => "VK_ZOOM"@,
        0xFC => "VK_NONAME"@,
        0xFD => "VK_PA1"@,
        0xFE => "VK_OEM_CLEAR"@,
        0xFF => "VK__none_"@,
    }
}

/// The name of the virtual key with code `code`.
pub fn virtual_key_name(code: u8) -> (r: &'static str)
    ensures
        r@ == virtual_key_name_spec(code),
{
    match code {
        0x00 => "UNASSIGNED",
        0x01 => "VK_LBUTTON",
        0x02 => "VK_RBUTTON",
        0x03 => "VK_CANCEL",
        0x04 => "VK_MBUTTON",
        0x05 => "VK_XBUTTON1",
        0x06 => "VK_XBUTTON2",
        0x07 => "UNASSIGNED",
        0x08 => "VK_BACK",
        0x09 => "VK_TAB",
        0x0A => "UNASSIGNED",
        0x0B => "UNASSIGNED",
        0x0C => "VK_CLEAR",
        0x0D => "VK_RETURN",
        0x0E => "UNASSIGNED",
        0x0F => "UNASSIGNED",
        0x10 => "VK_SHIFT",
        0x11 => "VK_CONTROL",
        0x12 => "VK_MENU",
        0x13 => "VK_PAUSE",
        0x14 => "VK_CAPITAL",
        0x15 => "VK_KANA",
        0x16 => "VK_IME_ON",
        0x17 => "VK_JUNJA",
        0x18 => "VK_FINAL",
        0x19 => "VK_HANJA",
        0x1A => "VK_IME_OFF",
        0x1B => "VK_ESCAPE",
        0x1C => "VK_CONVERT",
        0x1D => "VK_NONCONVERT",
        0x1E => "VK_ACCEPT",
        0x1F => "VK_MODECHANGE",
        0x20 => "VK_SPACE",
        0x21 => "VK_PRIOR",
        0x22 => "VK_NEXT",
        0x23 => "VK_END",
        0x24 => "VK_HOME",
        0x25 => "VK_LEFT",
        0x26 => "VK_UP",
        0x27 => "VK_RIGHT",
        0x28 => "VK_DOWN",
        0x29 => "VK_SELECT",
        0x2A => "VK_PRINT",
        0x2B => "VK_EXECUTE",
        0x2C => "VK_SNAPSHOT",
        0x2D => "VK_INSERT",
        0x2E => "VK_DELETE",
        0x2F => "VK_HELP",
        0x30 => "VK_0",
        0x31 => "VK_1",
        0x32 => "VK_2",
        0x33 => "VK_3",
        0x34 => "VK_4",
        0x35 => "VK_5",
        0x36 => "VK_6",
        0x37 => "VK_7",
        0x38 => "VK_8",
        0x39 => "VK_9",
        0x3A => "UNASSIGNED",
        0x3B => "UNASSIGNED",
        0x3C => "UNASSIGNED",
        0x3D => "UNASSIGNED",
        0x3E => "UNASSIGNED",
        0x3F => "UNASSIGNED",
        0x40 => "UNASSIGNED",
        0x41 => "VK_A",
        0x42 => "VK_B",
        0x43 => "VK_C",
        0x44 => "VK_D",
        0x45 => "VK_E",
        0x46 => "VK_F",
        0x47 => "VK_G",
        0x48 => "VK_H",
        0x49 => "VK_I",
        0x4A => "VK_J",
        0x4B => "VK_K",
        0x4C => "VK_L",
        0x4D => "VK_M",
        0x4E => "VK_N",
        0x4F => "VK_O",
        0x50 => "VK_P",
        0x51 => "VK_Q",
        0x52 => "VK_R",
        0x53 => "VK_S",
        0x54 => "VK_T",
        0x55 => "VK_U",
        0x56 => "VK_V",
        0x57 => "VK_W",
        0x58 => "VK_X",
        0x59 => "VK_Y",
        0x5A => "VK_Z",
        0x5B => "VK_LWIN",
        0x5C => "VK_RWIN",
        0x5D => "VK_APPS",
        0x5E => "UNASSIGNED",
        0x5F => "VK_SLEEP",
        0x60 => "VK_NUMPAD0",
        0x61 => "VK_NUMPAD1",
        0x62 => "VK_NUMPAD2",
        0x63 => "VK_NUMPAD3",
        0x64 => "VK_NUMPAD4",
        0x65 => "VK_NUMPAD5",
        0x66 => "VK_NUMPAD6",
        0x67 => "VK_NUMPAD7",
        0x68 => "VK_NUMPAD8",
        0x69 => "VK_NUMPAD9",
        0x6A => "VK_MULTIPLY",
        0x6B => "VK_ADD",
        0x6C => "VK_SEPARATOR",
        0x6D => "VK_SUBTRACT",
        0x6E => "VK_DECIMAL",
        0x6F => "VK_DIVIDE",
        0x70 => "VK_F1",
        0x71 => "VK_F2",
        0x72 => "VK_F3",
        0x73 => "VK_F4",
        0x74 => "VK_F5",
        0x75 => "VK_F6",
        0x76 => "VK_F7",
        0x77 => "VK_F8",
        0x78 => "VK_F9",
        0x79 => "VK_F10",
        0x7A => "VK_F11",
        0x7B => "VK_F12",
        0x7C => "VK_F13",
        0x7D => "VK_F14",
        0x7E => "VK_F15",
        0x7F => "VK_F16",
        0x80 => "VK_F17",
        0x81 => "VK_F18",
        0x82 => "VK_F19",
        0x83 => "VK_F20",
        0x84 => "VK_F21",
        0x85 => "VK_F22",
        0x86 => "VK_F23",
        0x87 => "VK_F24",
        0x88 => "UNASSIGNED",
        0x89 => "UNASSIGNED",
        0x8A => "UNASSIGNED",
        0x8B => "UNASSIGNED",
        0x8C => "UNASSIGNED",
        0x8D => "UNASSIGNED",
        0x8E => "UNASSIGNED",
        0x8F => "UNASSIGNED",
        0x90 => "VK_NUMLOCK",
        0x91 => "VK_SCROLL",
        0x92 => "UNASSIGNED",
        0x93 => "UNASSIGNED",
        0x94 => "UNASSIGNED",
        0x95 => "UNASSIGNED",
        0x96 => "UNASSIGNED",
        0x97 => "UNASSIGNED",
        0x98 => "UNASSIGNED",
        0x99 => "UNASSIGNED",
        0x9A => "UNASSIGNED",
        0x9B => "UNASSIGNED",
        0x9C => "UNASSIGNED",
        0x9D => "UNASSIGNED",
        0x9E => "UNASSIGNED",
        0x9F => "UNASSIGNED",
        0xA0 => "VK_LSHIFT",
        0xA1 => "VK_RSHIFT",
        0xA2 => "VK_LCONTROL",
        0xA3 => "VK_RCONTROL",
        0xA4 => "VK_LMENU",
        0xA5 => "VK_RMENU",
        0xA6 => "VK_BROWSER_BACK",
        0xA7 => "VK_BROWSER_FORWARD",
        0xA8 => "VK_BROWSER_REFRESH",
        0xA9 => "VK_BROWSER_STOP",
        0xAA => "VK_BROWSER_SEARCH",
        0xAB => "VK_BROWSER_FAVORITES",
        0xAC => "VK_BROWSER_HOME",
        0xAD => "VK_VOLUME_MUTE",
        0xAE => "VK_VOLUME_DOWN",
        0xAF => "VK_VOLUME_UP",
        0xB0 => "VK_MEDIA_NEXT_TRACK",
        0xB1 => "VK_MEDIA_PREV_TRACK",
        0xB2 => "VK_MEDIA_STOP",
        0xB3 => "VK_MEDIA_PLAY_PAUSE",
        0xB4 => "VK_LAUNCH_MAIL",
        0xB5 => "VK_LAUNCH_MEDIA_SELECT",
        0xB6 => "VK_LAUNCH_APP1",
        0xB7 => "VK_LAUNCH_APP2",
        0xB8 => "UNASSIGNED",
        0xB9 => "UNASSIGNED",
        0xBA => "VK_OEM_1",
        0xBB => "VK_OEM_PLUS",
        0xBC => "VK_OEM_COMMA",
        0xBD => "VK_OEM_MINUS",
        0xBE => "VK_OEM_PERIOD",
        0xBF => "VK_OEM_2",
        0xC0 => "VK_OEM_3",
        0xC1 => "UNASSIGNED",
        0xC2 => "UNASSIGNED",
        0xC3 => "UNASSIGNED",
        0xC4 => "UNASSIGNED",
        0xC5 => "UNASSIGNED",
        0xC6 => "UNASSIGNED",
        0xC7 => "UNASSIGNED",
        0xC8 => "UNASSIGNED",
        0xC9 => "UNASSIGNED",
        0xCA => "UNASSIGNED",
        0xCB => "UNASSIGNED",
        0xCC => "UNASSIGNED",
        0xCD => "UNASSIGNED",
        0xCE => "UNASSIGNED",
        0xCF => "UNASSIGNED",
        0xD0 => "UNASSIGNED",
        0xD1 => "UNASSIGNED",
        0xD2 => "UNASSIGNED",
        0xD3 => "UNASSIGNED",
        0xD4 => "UNASSIGNED",
        0xD5 => "UNASSIGNED",
        0xD6 => "UNASSIGNED",
        0xD7 => "UNASSIGNED",
        0xD8 => "UNASSIGNED",
        0xD9 => "UNASSIGNED",
        0xDA => "UNASSIGNED",
        0xDB => "VK_OEM_4",
        0xDC => "VK_OEM_5",
        0xDD => "VK_OEM_6",
        0xDE => "VK_OEM_7",
        0xDF => "VK_OEM_8",
        0xE0 => "UNASSIGNED",
        0xE1 => "UNASSIGNED",
        0xE2 => "VK_OEM_102",
        0xE3 => "UNASSIGNED",
        0xE4 => "UNASSIGNED",
        0xE5 => "VK_PROCESSKEY",
        0xE6 => "UNASSIGNED",
        0xE7 => "VK_PACKET",
        0xE8 => "UNASSIGNED",
        0xE9 => "UNASSIGNED",
        0xEA => "UNASSIGNED",
        0xEB => "UNASSIGNED",
        0xEC => "UNASSIGNED",
        0xED => "UNASSIGNED",
        0xEE => "UNASSIGNED",
        0xEF => "UNASSIGNED",
        0xF0 => "UNASSIGNED",
        0xF1 => "UNASSIGNED",
        0xF2 => "UNASSIGNED",
        0xF3 => "UNASSIGNED",
        0xF4 => "UNASSIGNED",
        0xF5 => "UNASSIGNED",
        0xF6 => "VK_ATTN",
        0xF7 => "VK_CRSEL",
        0xF8 => "VK_EXSEL",
        0xF9 => "VK_EREOF",
        0xFA => "VK_PLAY",
        0xFB => "VK_ZOOM",
        0xFC => "VK_NONAME",
        0xFD => "VK_PA1",
        0xFE => "VK_OEM_CLEAR",
        0xFF => "VK__none_",
    }
}

/// The name of the scan code `code`, plain or extended.
pub closed spec fn scan_code_name_spec(code: u8, extended: bool) -> Seq<char> {
    if extended {
        match code {
            0x00 => "UNASSIGNED"@,
            0x01 => "SC_\u{1b}"@,
            0x02 => "SC_1"@,
            0x03 => "SC_2"@,
            0x04 => "SC_3"@,
            0x05 => "SC_4"@,
            0x06 => "SC_5"@,
            0x07 => "SC_6"@,
            0x08 => "SC_7"@,
            0x09 => "SC_8"@,
            0x0A => "SC_9"@,
            0x0B => "SC_0"@,
            0x0C => "SC_MINUS"@,
            0x0D => "SC_EQ"@,
            0x0E => "SC"@,
            0x0F => "SC_\t"@,
            0x10 => "SC_Q"@,
            0x11 => "SC_W"@,
            0x12 => "SC_E"@,
            0x13 => "SC_R"@,
            0x14 => "SC_T"@,
            0x15 => "SC_Y"@,
            0x16 => "SC_U"@,
            0x17 => "SC_I"@,
            0x18 => "SC_O"@,
            0x19 => "SC_P"@,
            0x1A => "SC_L_BRACKET"@,
            0x1B => "SC_R_BRACKET"@,
            0x1C => "SC_NUM_ENTER"@,
            0x1D => "SC_RIGHT_CTRL"@,
            0x1E => "SC_A"@,
            0x1F => "SC_S"@,
            0x20 => "SC_VOL_MUTE"@,
            0x21 => "SC_CALCULATOR"@,
            0x22 => "SC_G"@,
            0x23 => "SC_H"@,
            0x24 => "SC_J"@,
            0x25 => "SC_K"@,
            0x26 => "SC_L"@,
            0x27 => "SC_SEMICOLON"@,
            0x28 => "SC_APOSTROPHE"@,
            0x29 => "SC_BACKTICK"@,
            0x2A => "UNASSIGNED"@,
            0x2B => "SC_BRIGHTNESS"@,
            0x2C => "SC_Z"@,
            0x2D => "SC_X"@,
            0x2E => "SC_VOLUME_DOWN"@,
            0x2F => "SC_V"@,
            0x30 => "SC_VOLUME_UP"@,
            0x31 => "SC_N"@,
            0x32 => "SC_M"@,
            0x33 => "SC_COMMA"@,
            0x34 => "SC_DOT"@,
            0x35 => "SC_NUM_SLASH"@,
            0x36 => "SC_RIGHT_SHIFT"@,
            0x37 => "SC_PRNT_SCRN"@,
            0x38 => "SC_RIGHT_ALT"@,
            0x39 => "SC__"@,
            0x3A => "UNASSIGNED"@,
            0x3B => "UNASSIGNED"@,
            0x3C => "UNASSIGNED"@,
            0x3D => "UNASSIGNED"@,
            0x3E => "UNASSIGNED"@,
            0x3F => "UNASSIGNED"@,
            0x40 => "UNASSIGNED"@,
            0x41 => "UNASSIGNED"@,
            0x42 => "UNASSIGNED"@,
            0x43 => "UNASSIGNED"@,
            0x44 => "UNASSIGNED"@,
            0x45 => "SC_NUM_LOCK"@,
            0x46 => "SC_BREAK"@,
            0x47 => "SC_HOME"@,
            0x48 => "SC_UP"@,
            0x49 => "SC_PAGE_UP"@,
            0x4A => "SC_MINUS"@,
            0x4B => "SC_LEFT"@,
            0x4C => "UNASSIGNED"@,
            0x4D => "SC_RIGHT"@,
            0x4E => "SC_PLUS"@,
            0x4F => "SC_END"@,
            0x50 => "SC_DOWN"@,
            0x51 => "SC_PAGE_DOWN"@,
            0x52 => "SC_INSERT"@,
            0x53 => "SC_DELETE"@,
            0x54 => "SC_<00>"@,
            0x55 => "UNASSIGNED"@,
            0x56 => "SC_HELP"@,
            0x57 => "UNASSIGNED"@,
            0x58 => "UNASSIGNED"@,
            0x59 => "UNASSIGNED"@,
            0x5A => "UNASSIGNED"@,
            0x5B => "SC_LEFT_WINDOWS"@,
            0x5C => "SC_RIGHT_WINDOWS"@,
            0x5D => "SC_APPLICATION"@,
            0x5E => "UNASSIGNED"@,
            0x5F => "UNASSIGNED"@,
            0x60 => "UNASSIGNED"@,
            0x61 => "UNASSIGNED"@,
            0x62 => "UNASSIGNED"@,
            0x63 => "UNASSIGNED"@,
            0x64 => "UNASSIGNED"@,
            0x65 => "UNASSIGNED"@,
            0x66 => "UNASSIGNED"@,
            0x67 => "UNASSIGNED"@,
            0x68 => "UNASSIGNED"@,
            0x69 => "UNASSIGNED"@,
            0x6A => "UNASSIGNED"@,
            0x6B => "UNASSIGNED"@,
            0x6C => "UNASSIGNED"@,
            0x6D => "UNASSIGNED"@,
            0x6E => "UNASSIGNED"@,
            0x6F => "UNASSIGNED"@,
            0x70 => "UNASSIGNED"@,
            0x71 => "UNASSIGNED"@,
            0x72 => "UNASSIGNED"@,
            0x73 => "UNASSIGNED"@,
            0x74 => "UNASSIGNED"@,
            0x75 => "UNASSIGNED"@,
            0x76 => "UNASSIGNED"@,
            0x77 => "UNASSIGNED"@,
            0x78 => "UNASSIGNED"@,
            0x79 => "UNASSIGNED"@,
            0x7A => "UNASSIGNED"@,
            0x7B => "UNASSIGNED"@,
            0x7C => "SC_\t"@,
            0x7D => "UNASSIGNED"@,
            0x7E => "UNASSIGNED"@,
            0x7F => "UNASSIGNED"@,
            0x80 => "UNASSIGNED"@,
            0x81 => "UNASSIGNED"@,
            0x82 => "UNASSIGNED"@,
            0x83 => "UNASSIGNED"@,
            0x84 => "UNASSIGNED"@,
            0x85 => "UNASSIGNED"@,
            0x86 => "UNASSIGNED"@,
            0x87 => "UNASSIGNED"@,
            _ => Seq::empty(),
        }
    } else {
        match code {
            0x00 => "UNASSIGNED"@,
            0x01 => "SC_ESC"@,
            0x02 => "SC_1"@,
            0x03 => "SC_2"@,
            0x04 => "SC_3"@,
            0x05 => "SC_4"@,
            0x06 => "SC_5"@,
            0x07 => "SC_6"@,
            0x08 => "SC_7"@,
            0x09 => "SC_8"@,
            0x0A => "SC_9"@,
            0x0B => "SC_0"@,
            0x0C => "SC_MINUS"@,
            0x0D => "SC_EQ"@,
            0x0E => "SC_BACKSPACE"@,
            0x0F => "SC_TAB"@,
            0x10 => "SC_Q"@,
            0x11 => "SC_W"@,
            0x12 => "SC_E"@,
            0x13 => "SC_R"@,
            0x14 => "SC_T"@,
            0x15 => "SC_Y"@,
            0x16 => "SC_U"@,
            0x17 => "SC_I"@,
            0x18 => "SC_O"@,
            0x19 => "SC_P"@,
            0x1A => "SC_L_BRACKET"@,
            0x1B => "SC_R_BRACKET"@,
            0x1C => "SC_ENTER"@,
            0x1D => "SC_CTRL"@,
            0x1E => "SC_A"@,
            0x1F => "SC_S"@,
            0x20 => "SC_D"@,
            0x21 => "SC_F"@,
            0x22 => "SC_G"@,
            0x23 => "SC_H"@,
            0x24 => "SC_J"@,
            0x25 => "SC_K"@,
            0x26 => "SC_L"@,
            0x27 => "SC_SEMICOLON"@,
            0x28 => "SC_APOSTROPHE"@,
            0x29 => "SC_BACKTICK"@,
            0x2A => "SC_SHIFT"@,
            0x2B => "SC_BACKSLASH"@,
            0x2C => "SC_Z"@,
            0x2D => "SC_X"@,
            0x2E => "SC_C"@,
            0x2F => "SC_V"@,
            0x30 => "SC_B"@,
            0x31 => "SC_N"@,
            0x32 => "SC_M"@,
            0x33 => "SC_COMMA"@,
            0x34 => "SC_DOT"@,
            0x35 => "SC_SLASH"@,
            0x36 => "SC_RIGHT_SHIFT"@,
            0x37 => "SC_NUM_MUL"@,
            0x38 => "SC_ALT"@,
            0x39 => "SC_SPACE"@,
            0x3A => "SC_CAPS_LOCK"@,
            0x3B => "SC_F1"@,
            0x3C => "SC_F2"@,
            0x3D => "SC_F3"@,
            0x3E => "SC_F4"@,
            0x3F => "SC_F5"@,
            0x40 => "SC_F6"@,
            0x41 => "SC_F7"@,
            0x42 => "SC_F8"@,
            0x43 => "SC_F9"@,
            0x44 => "SC_F10"@,
            0x45 => "SC_PAUSE"@,
            0x46 => "SC_SCROLL_LOCK"@,
            0x47 => "SC_NUM_7"@,
            0x48 => "SC_NUM_8"@,
            0x49 => "SC_NUM_9"@,
            0x4A => "SC_NUM_MINUS"@,
            0x4B => "SC_NUM_4"@,
            0x4C => "SC_NUM_5"@,
            0x4D => "SC_NUM_6"@,
            0x4E => "SC_NUM_PLUS"@,
            0x4F => "SC_NUM_1"@,
            0x50 => "SC_NUM_2"@,
            0x51 => "SC_NUM_3"@,
            0x52 => "SC_NUM_0"@,
            0x53 => "SC_NUM_DEL"@,
            0x54 => "SC_SYS_REQ"@,
            0x55 => "UNASSIGNED"@,
            0x56 => "SC_BACKSLASH"@,
            0x57 => "SC_F11"@,
            0x58 => "SC_F12"@,
            0x59 => "UNASSIGNED"@,
            0x5A => "UNASSIGNED"@,
            0x5B => "UNASSIGNED"@,
            0x5C => "UNASSIGNED"@,
            0x5D => "UNASSIGNED"@,
            0x5E => "UNASSIGNED"@,
            0x5F => "UNASSIGNED"@,
            0x60 => "UNASSIGNED"@,
            0x61 => "UNASSIGNED"@,
            0x62 => "UNASSIGNED"@,
            0x63 => "UNASSIGNED"@,
            0x64 => "UNASSIGNED"@,
            0x65 => "UNASSIGNED"@,
            0x66 => "UNASSIGNED"@,
            0x67 => "UNASSIGNED"@,
            0x68 => "UNASSIGNED"@,
            0x69 => "UNASSIGNED"@,
            0x6A => "UNASSIGNED"@,
            0x6B => "UNASSIGNED"@,
            0x6C => "UNASSIGNED"@,
            0x6D => "UNASSIGNED"@,
            0x6E => "UNASSIGNED"@,
            0x6F => "UNASSIGNED"@,
            0x70 => "UNASSIGNED"@,
            0x71 => "UNASSIGNED"@,
            0x72 => "UNASSIGNED"@,
            0x73 => "UNASSIGNED"@,
            0x74 => "UNASSIGNED"@,
            0x75 => "UNASSIGNED"@,
            0x76 => "UNASSIGNED"@,
            0x77 => "UNASSIGNED"@,
            0x78 => "UNASSIGNED"@,
            0x79 => "UNASSIGNED"@,
            0x7A => "UNASSIGNED"@,
            0x7B => "UNASSIGNED"@,
            0x7C => "SC_F13"@,
            0x7D => "SC_F14"@,
            0x7E => "SC_F15"@,
            0x7F => "SC_F16"@,
            0x80 => "SC_F17"@,
            0x81 => "SC_F18"@,
            0x82 => "SC_F19"@,
            0x83 => "SC_F20"@,
            0x84 => "SC_F21"@,
            0x85 => "SC_F22"@,
            0x86 => "SC_F23"@,
            0x87 => "SC_F24"@,
            _ => Seq::empty(),
        }
    }
}

/// The name of the scan code `code`, plain or extended.
pub fn scan_code_name(code: u8, extended: bool) -> (r: &'static str)
    requires
        (code as usize) < MAX_SCAN_CODE,
    ensures
        r@ == scan_code_name_spec(code, extended),
{
    if extended {
        match code {
            0x00 => "UNASSIGNED",
            0x01 => "SC_\u{1b}",
            0x02 => "SC_1",
            0x03 => "SC_2",
            0x04 => "SC_3",
            0x05 => "SC_4",
            0x06 => "SC_5",
            0x07 => "SC_6",
            0x08 => "SC_7",
            0x09 => "SC_8",
            0x0A => "SC_9",
            0x0B => "SC_0",
            0x0C => "SC_MINUS",
            0x0D => "SC_EQ",
            0x0E => "SC",
            0x0F => "SC_\t",
            0x10 => "SC_Q",
            0x11 => "SC_W",
            0x12 => "SC_E",
            0x13 => "SC_R",
            0x14 => "SC_T",
            0x15 => "SC_Y",
            0x16 => "SC_U",
            0x17 => "SC_I",
            0x18 => "SC_O",
            0x19 => "SC_P",
            0x1A => "SC_L_BRACKET",
            0x1B => "SC_R_BRACKET",
            0x1C => "SC_NUM_ENTER",
            0x1D => "SC_RIGHT_CTRL",
            0x1E => "SC_A",
            0x1F => "SC_S",
            0x20 => "SC_VOL_MUTE",
            0x21 => "SC_CALCULATOR",
            0x22 => "SC_G",
            0x23 => "SC_H",
            0x24 => "SC_J",
            0x25 => "SC_K",
            0x26 => "SC_L",
            0x27 => "SC_SEMICOLON",
            0x28 => "SC_APOSTROPHE",
            0x29 => "SC_BACKTICK",
            0x2A => "UNASSIGNED",
            0x2B => "SC_BRIGHTNESS",
            0x2C => "SC_Z",
            0x2D => "SC_X",
            0x2E => "SC_VOLUME_DOWN",
            0x2F => "SC_V",
            0x30 => "SC_VOLUME_UP",
            0x31 => "SC_N",
            0x32 => "SC_M",
            0x33 => "SC_COMMA",
            0x34 => "SC_DOT",
            0x35 => "SC_NUM_SLASH",
            0x36 => "SC_RIGHT_SHIFT",
            0x37 => "SC_PRNT_SCRN",
            0x38 => "SC_RIGHT_ALT",
            0x39 => "SC__",
            0x3A => "UNASSIGNED",
            0x3B => "UNASSIGNED",
            0x3C => "UNASSIGNED",
            0x3D => "UNASSIGNED",
            0x3E => "UNASSIGNED",
            0x3F => "UNASSIGNED",
            0x40 => "UNASSIGNED",
            0x41 => "UNASSIGNED",
            0x42 => "UNASSIGNED",
            0x43 => "UNASSIGNED",
            0x44 => "UNASSIGNED",
            0x45 => "SC_NUM_LOCK",
            0x46 => "SC_BREAK",
            0x47 => "SC_HOME",
            0x48 => "SC_UP",
            0x49 => "SC_PAGE_UP",
            0x4A => "SC_MINUS",
            0x4B => "SC_LEFT",
            0x4C => "UNASSIGNED",
            0x4D => "SC_RIGHT",
            0x4E => "SC_PLUS",
            0x4F => "SC_END",
            0x50 => "SC_DOWN",
            0x51 => "SC_PAGE_DOWN",
            0x52 => "SC_INSERT",
            0x53 => "SC_DELETE",
            0x54 => "SC_<00>",
            0x55 => "UNASSIGNED",
            0x56 => "SC_HELP",
            0x57 => "UNASSIGNED",
            0x58 => "UNASSIGNED",
            0x59 => "UNASSIGNED",
            0x5A => "UNASSIGNED",
            0x5B => "SC_LEFT_WINDOWS",
            0x5C => "SC_RIGHT_WINDOWS",
            0x5D => "SC_APPLICATION",
            0x5E => "UNASSIGNED",
            0x5F => "UNASSIGNED",
            0x60 => "UNASSIGNED",
            0x61 => "UNASSIGNED",
            0x62 => "UNASSIGNED",
            0x63 => "UNASSIGNED",
            0x64 => "UNASSIGNED",
            0x65 => "UNASSIGNED",
            0x66 => "UNASSIGNED",
            0x67 => "UNASSIGNED",
            0x68 => "UNASSIGNED",
            0x69 => "UNASSIGNED",
            0x6A => "UNASSIGNED",
            0x6B => "UNASSIGNED",
            0x6C => "UNASSIGNED",
            0x6D => "UNASSIGNED",
            0x6E => "UNASSIGNED",
            0x6F => "UNASSIGNED",
            0x70 => "UNASSIGNED",
            0x71 => "UNASSIGNED",
            0x72 => "UNASSIGNED",
            0x73 => "UNASSIGNED",
            0x74 => "UNASSIGNED",
            0x75 => "UNASSIGNED",
            0x76 => "UNASSIGNED",
            0x77 => "UNASSIGNED",
            0x78 => "UNASSIGNED",
            0x79 => "UNASSIGNED",
            0x7A => "UNASSIGNED",
            0x7B => "UNASSIGNED",
            0x7C => "SC_\t",
            0x7D => "UNASSIGNED",
            0x7E => "UNASSIGNED",
            0x7F => "UNASSIGNED",
            0x80 => "UNASSIGNED",
            0x81 => "UNASSIGNED",
            0x82 => "UNASSIGNED",
            0x83 => "UNASSIGNED",
            0x84 => "UNASSIGNED",
            0x85 => "UNASSIGNED",
            0x86 => "UNASSIGNED",
            0x87 => "UNASSIGNED",
            _ => "",
        }
    } else {
        match code {
            0x00 => "UNASSIGNED",
            0x01 => "SC_ESC",
            0x02 => "SC_1",
            0x03 => "SC_2",
            0x04 => "SC_3",
            0x05 => "SC_4",
            0x06 => "SC_5",
            0x07 => "SC_6",
            0x08 => "SC_7",
            0x09 => "SC_8",
            0x0A => "SC_9",
            0x0B => "SC_0",
            0x0C => "SC_MINUS",
            0x0D => "SC_EQ",
            0x0E => "SC_BACKSPACE",
            0x0F => "SC_TAB",
            0x10 => "SC_Q",
            0x11 => "SC_W",
            0x12 => "SC_E",
            0x13 => "SC_R",
            0x14 => "SC_T",
            0x15 => "SC_Y",
            0x16 => "SC_U",
            0x17 => "SC_I",
            0x18 => "SC_O",
            0x19 => "SC_P",
            0x1A => "SC_L_BRACKET",
            0x1B => "SC_R_BRACKET",
            0x1C => "SC_ENTER",
            0x1D => "SC_CTRL",
            0x1E => "SC_A",
            0x1F => "SC_S",
            0x20 => "SC_D",
            0x21 => "SC_F",
            0x22 => "SC_G",
            0x23 => "SC_H",
            0x24 => "SC_J",
            0x25 => "SC_K",
            0x26 => "SC_L",
            0x27 => "SC_SEMICOLON",
            0x28 => "SC_APOSTROPHE",
            0x29 => "SC_BACKTICK",
            0x2A => "SC_SHIFT",
            0x2B => "SC_BACKSLASH",
            0x2C => "SC_Z",
            0x2D => "SC_X",
            0x2E => "SC_C",
            0x2F => "SC_V",
            0x30 => "SC_B",
            0x31 => "SC_N",
            0x32 => "SC_M",
            0x33 => "SC_COMMA",
            0x34 => "SC_DOT",
            0x35 => "SC_SLASH",
            0x36 => "SC_RIGHT_SHIFT",
            0x37 => "SC_NUM_MUL",
            0x38 => "SC_ALT",
            0x39 => "SC_SPACE",
            0x3A => "SC_CAPS_LOCK",
            0x3B => "SC_F1",
            0x3C => "SC_F2",
            0x3D => "SC_F3",
            0x3E => "SC_F4",
            0x3F => "SC_F5",
            0x40 => "SC_F6",
            0x41 => "SC_F7",
            0x42 => "SC_F8",
            0x43 => "SC_F9",
            0x44 => "SC_F10",
            0x45 => "SC_PAUSE",
            0x46 => "SC_SCROLL_LOCK",
            0x47 => "SC_NUM_7",
            0x48 => "SC_NUM_8",
            0x49 => "SC_NUM_9",
            0x4A => "SC_NUM_MINUS",
            0x4B => "SC_NUM_4",
            0x4C => "SC_NUM_5",
            0x4D => "SC_NUM_6",
            0x4E => "SC_NUM_PLUS",
            0x4F => "SC_NUM_1",
            0x50 => "SC_NUM_2",
            0x51 => "SC_NUM_3",
            0x52 => "SC_NUM_0",
            0x53 => "SC_NUM_DEL",
            0x54 => "SC_SYS_REQ",
            0x55 => "UNASSIGNED",
            0x56 => "SC_BACKSLASH",
            0x57 => "SC_F11",
            0x58 => "SC_F12",
            0x59 => "UNASSIGNED",
            0x5A => "UNASSIGNED",
            0x5B => "UNASSIGNED",
            0x5C => "UNASSIGNED",
            0x5D => "UNASSIGNED",
            0x5E => "UNASSIGNED",
            0x5F => "UNASSIGNED",
            0x60 => "UNASSIGNED",
            0x61 => "UNASSIGNED",
            0x62 => "UNASSIGNED",
            0x63 => "UNASSIGNED",
            0x64 => "UNASSIGNED",
            0x65 => "UNASSIGNED",
            0x66 => "UNASSIGNED",
            0x67 => "UNASSIGNED",
            0x68 => "UNASSIGNED",
            0x69 => "UNASSIGNED",
            0x6A => "UNASSIGNED",
            0x6B => "UNASSIGNED",
            0x6C => "UNASSIGNED",
            0x6D => "UNASSIGNED",
            0x6E => "UNASSIGNED",
            0x6F => "UNASSIGNED",
            0x70 => "UNASSIGNED",
            0x71 => "UNASSIGNED",
            0x72 => "UNASSIGNED",
            0x73 => "UNASSIGNED",
            0x74 => "UNASSIGNED",
            0x75 => "UNASSIGNED",
            0x76 => "UNASSIGNED",
            0x77 => "UNASSIGNED",
            0x78 => "UNASSIGNED",
            0x79 => "UNASSIGNED",
            0x7A => "UNASSIGNED",
            0x7B => "UNASSIGNED",
            0x7C => "SC_F13",
            0x7D => "SC_F14",
            0x7E => "SC_F15",
            0x7F => "SC_F16",
            0x80 => "SC_F17",
            0x81 => "SC_F18",
            0x82 => "SC_F19",
            0x83 => "SC_F20",
            0x84 => "SC_F21",
            0x85 => "SC_F22",
            0x86 => "SC_F23",
            0x87 => "SC_F24",
            _ => "",
        }
    }
}


/// `a` comes before `b` in the order of their characters, the first `k` of them being equal.
pub open spec fn name_lt_at(a: Seq<char>, b: Seq<char>, k: int) -> bool {
    &&& 0 <= k <= a.len()
    &&& k <= b.len()
    &&& a.take(k) == b.take(k)
    &&& ((k == a.len() && k < b.len()) || (k < a.len() && k < b.len() && (a[k] as u32) < (b[k] as u32)))
}

/// `a` comes before `b` in the order of their characters.
pub open spec fn name_lt(a: Seq<char>, b: Seq<char>) -> bool {
    exists|k: int| #[trigger] name_lt_at(a, b, k)
}

proof fn lemma_name_lt_transitive(a: Seq<char>, b: Seq<char>, c: Seq<char>)
    requires
        name_lt(a, b),
        name_lt(b, c),
    ensures
        name_lt(a, c),
{
    let k1 = choose|k: int| #[trigger] name_lt_at(a, b, k);
    let k2 = choose|k: int| #[trigger] name_lt_at(b, c, k);
    if k1 < k2 {
        assert(a.take(k1) =~= c.take(k1)) by {
            assert forall|j: int| 0 <= j < k1 implies a.take(k1)[j] == c.take(k1)[j] by {
                assert(a.take(k1)[j] == b.take(k1)[j]);
                assert(b.take(k2)[j] == c.take(k2)[j]);
            }
        }
        assert(b.take(k2)[k1] == c.take(k2)[k1]);
        assert(name_lt_at(a, c, k1));
    } else if k2 < k1 {
        assert(a.take(k2) =~= c.take(k2)) by {
            assert forall|j: int| 0 <= j < k2 implies a.take(k2)[j] == c.take(k2)[j] by {
                assert(a.take(k1)[j] == b.take(k1)[j]);
                assert(b.take(k2)[j] == c.take(k2)[j]);
            }
        }
        assert(a.take(k1)[k2] == b.take(k1)[k2]);
        assert(name_lt_at(a, c, k2));
    } else {
        assert(a.take(k1) =~= c.take(k1));
        assert(name_lt_at(a, c, k1));
    }
}

proof fn lemma_name_lt_ne(a: Seq<char>, b: Seq<char>)
    requires
        name_lt(a, b),
    ensures
        a != b,
{
    let k = choose|k: int| #[trigger] name_lt_at(a, b, k);
}

proof fn lemma_names_sorted_0(i: int)
    requires
        0 <= i < 12,
    ensures
        name_lt(key_name_spec(i as u8), key_name_spec((i + 1) as u8)),
{
    if i == 0 {
        reveal_strlit("\t");
        reveal_strlit("\u{1b}");
        assert(key_name_spec(0) =~= "\t"@);
        assert(key_name_spec(1) =~= "\u{1b}"@);
        assert("\t"@.take(0) =~= "\u{1b}"@.take(0));
        assert(name_lt_at(key_name_spec(0), key_name_spec(1), 0));
    } else if i == 1 {
        reveal_strlit("\u{1b}");
        reveal_strlit("0");
        assert(key_name_spec(1) =~= "\u{1b}"@);
        assert(key_name_spec(2) =~= "0"@);
        assert("\u{1b}"@.take(0) =~= "0"@.take(0));
        assert(name_lt_at(key_name_spec(1), key_name_spec(2), 0));
    } else if i == 2 {
        reveal_strlit("0");
        reveal_strlit("1");
        assert(key_name_spec(2) =~= "0"@);
        assert(key_name_spec(3) =~= "1"@);
        assert("0"@.take(0) =~= "1"@.take(0));
        assert(name_lt_at(key_name_spec(2), key_name_spec(3), 0));
    } else if i == 3 {
        reveal_strlit("1");
        reveal_strlit("2");
        assert(key_name_spec(3) =~= "1"@);
        assert(key_name_spec(4) =~= "2"@);
        assert("1"@.take(0) =~= "2"@.take(0));
        assert(name_lt_at(key_name_spec(3), key_name_spec(4), 0));
    } else if i == 4 {
        reveal_strlit("2");
        reveal_strlit("3");
        assert(key_name_spec(4) =~= "2"@);
        assert(key_name_spec(5) =~= "3"@);
        assert("2"@.take(0) =~= "3"@.take(0));
        assert(name_lt_at(key_name_spec(4), key_name_spec(5), 0));
    } else if i == 5 {
        reveal_strlit("3");
        reveal_strlit("4");
        assert(key_name_spec(5) =~= "3"@);
        assert(key_name_spec(6) =~= "4"@);
        assert("3"@.take(0) =~= "4"@.take(0));
        assert(name_lt_at(key_name_spec(5), key_name_spec(6), 0));
    } else if i == 6 {
        reveal_strlit("4");
        reveal_strlit("5");
        assert(key_name_spec(6) =~= "4"@);
        assert(key_name_spec(7) =~= "5"@);
        assert("4"@.take(0) =~= "5"@.take(0));
        assert(name_lt_at(key_name_spec(6), key_name_spec(7), 0));
    } else if i == 7 {
        reveal_strlit("5");
        reveal_strlit("6");
        assert(key_name_spec(7) =~= "5"@);
        assert(key_name_spec(8) =~= "6"@);
        assert("5"@.take(0) =~= "6"@.take(0));
        assert(name_lt_at(key_name_spec(7), key_name_spec(8), 0));
    } else if i == 8 {
        reveal_strlit("6");
        reveal_strlit("7");
        assert(key_name_spec(8) =~= "6"@);
        assert(key_name_spec(9) =~= "7"@);
        assert("6"@.take(0) =~= "7"@.take(0));
        assert(name_lt_at(key_name_spec(8), key_name_spec(9), 0));
    } else if i == 9 {
        reveal_strlit("7");
        reveal_strlit("8");
        assert(key_name_spec(9) =~= "7"@);
        assert(key_name_spec(10) =~= "8"@);
        assert("7"@.take(0) =~= "8"@.take(0));
        assert(name_lt_at(key_name_spec(9), key_name_spec(10), 0));
    } else if i == 10 {
        reveal_strlit("8");
        reveal_strlit("9");
        assert(key_name_spec(10) =~= "8"@);
        assert(key_name_spec(11) =~= "9"@);
        assert("8"@.take(0) =~= "9"@.take(0));
        assert(name_lt_at(key_name_spec(10), key_name_spec(11), 0));
    } else if i == 11 {
        reveal_strlit("9");
        reveal_strlit("<00>");
        assert(key_name_spec(11) =~= "9"@);
        assert(key_name_spec(12) =~= "<00>"@);
        assert("9"@.take(0) =~= "<00>"@.take(0));
        assert(name_lt_at(key_name_spec(11), key_name_spec(12), 0));
    }
}

proof fn lemma_names_sorted_12(i: int)
    requires
        12 <= i < 24,
    ensures
        name_lt(key_name_spec(i as u8), key_name_spec((i + 1) as u8)),
{
    if i == 12 {
        reveal_strlit("<00>");
        reveal_strlit("A");
        assert(key_name_spec(12) =~= "<00>"@);
        assert(key_name_spec(13) =~= "A"@);
        assert("<00>"@.take(0) =~= "A"@.take(0));
        assert(name_lt_at(key_name_spec(12), key_name_spec(13), 0));
    } else if i == 13 {
        reveal_strlit("A");
        reveal_strlit("ACCEPT");
        assert(key_name_spec(13) =~= "A"@);
        assert(key_name_spec(14) =~= "ACCEPT"@);
        assert("A"@.take(1) =~= "ACCEPT"@.take(1));
        assert(name_lt_at(key_name_spec(13), key_name_spec(14), 1));
    } else if i == 14 {
        reveal_strlit("ACCEPT");
        reveal_strlit("APOSTROPHE");
        assert(key_name_spec(14) =~= "ACCEPT"@);
        assert(key_name_spec(15) =~= "APOSTROPHE"@);
        assert("ACCEPT"@.take(1) =~= "APOSTROPHE"@.take(1));
        assert(name_lt_at(key_name_spec(14), key_name_spec(15), 1));
    } else if i == 15 {
        reveal_strlit("APOSTROPHE");
        reveal_strlit("APPLICATION");
        assert(key_name_spec(15) =~= "APOSTROPHE"@);
        assert(key_name_spec(16) =~= "APPLICATION"@);
        assert("APOSTROPHE"@.take(2) =~= "APPLICATION"@.take(2));
        assert(name_lt_at(key_name_spec(15), key_name_spec(16), 2));
    } else if i == 16 {
        reveal_strlit("APPLICATION");
        reveal_strlit("ATTN");
        assert(key_name_spec(16) =~= "APPLICATION"@);
        assert(key_name_spec(17) =~= "ATTN"@);
        assert("APPLICATION"@.take(1) =~= "ATTN"@.take(1));
        assert(name_lt_at(key_name_spec(16), key_name_spec(17), 1));
    } else if i == 17 {
        reveal_strlit("ATTN");
        reveal_strlit("B");
        assert(key_name_spec(17) =~= "ATTN"@);
        assert(key_name_spec(18) =~= "B"@);
        assert("ATTN"@.take(0) =~= "B"@.take(0));
        assert(name_lt_at(key_name_spec(17), key_name_spec(18), 0));
    } else if i == 18 {
        reveal_strlit("B");
        reveal_strlit("BACKSLASH");
        assert(key_name_spec(18) =~= "B"@);
        assert(key_name_spec(19) =~= "BACKSLASH"@);
        assert("B"@.take(1) =~= "BACKSLASH"@.take(1));
        assert(name_lt_at(key_name_spec(18), key_name_spec(19), 1));
    } else if i == 19 {
        reveal_strlit("BACKSLASH");
        reveal_strlit("BACKSLASH_2");
        assert(key_name_spec(19) =~= "BACKSLASH"@);
        assert(key_name_spec(20) =~= "BACKSLASH_2"@);
        assert("BACKSLASH"@.take(9) =~= "BACKSLASH_2"@.take(9));
        assert(name_lt_at(key_name_spec(19), key_name_spec(20), 9));
    } else if i == 20 {
        reveal_strlit("BACKSLASH_2");
        reveal_strlit("BACKSPACE");
        assert(key_name_spec(20) =~= "BACKSLASH_2"@);
        assert(key_name_spec(21) =~= "BACKSPACE"@);
        assert("BACKSLASH_2"@.take(5) =~= "BACKSPACE"@.take(5));
        assert(name_lt_at(key_name_spec(20), key_name_spec(21), 5));
    } else if i == 21 {
        reveal_strlit("BACKSPACE");
        reveal_strlit("BACKTICK");
        assert(key_name_spec(21) =~= "BACKSPACE"@);
        assert(key_name_spec(22) =~= "BACKTICK"@);
        assert("BACKSPACE"@.take(4) =~= "BACKTICK"@.take(4));
        assert(name_lt_at(key_name_spec(21), key_name_spec(22), 4));
    } else if i == 22 {
        reveal_strlit("BACKTICK");
        reveal_strlit("BREAK");
        assert(key_name_spec(22) =~= "BACKTICK"@);
        assert(key_name_spec(23) =~= "BREAK"@);
        assert("BACKTICK"@.take(1) =~= "BREAK"@.take(1));
        assert(name_lt_at(key_name_spec(22), key_name_spec(23), 1));
    } else if i == 23 {
        reveal_strlit("BREAK");
        reveal_strlit("BRIGHTNESS");
        assert(key_name_spec(23) =~= "BREAK"@);
        assert(key_name_spec(24) =~= "BRIGHTNESS"@);
        assert("BREAK"@.take(2) =~= "BRIGHTNESS"@.take(2));
        assert(name_lt_at(key_name_spec(23), key_name_spec(24), 2));
    }
}

proof fn lemma_names_sorted_24(i: int)
    requires
        24 <= i < 36,
    ensures
        name_lt(key_name_spec(i as u8), key_name_spec((i + 1) as u8)),
{
    if i == 24 {
        reveal_strlit("BRIGHTNESS");
        reveal_strlit("BROWSER_BACK");
        assert(key_name_spec(24) =~= "BRIGHTNESS"@);
        assert(key_name_spec(25) =~= "BROWSER_BACK"@);
        assert("BRIGHTNESS"@.take(2) =~= "BROWSER_BACK"@.take(2));
        assert(name_lt_at(key_name_spec(24), key_name_spec(25), 2));
    } else if i == 25 {
        reveal_strlit("BROWSER_BACK");
        reveal_strlit("BROWSER_FAVORITES");
        assert(key_name_spec(25) =~= "BROWSER_BACK"@);
        assert(key_name_spec(26) =~= "BROWSER_FAVORITES"@);
        assert("BROWSER_BACK"@.take(8) =~= "BROWSER_FAVORITES"@.take(8));
        assert(name_lt_at(key_name_spec(25), key_name_spec(26), 8));
    } else if i == 26 {
        reveal_strlit("BROWSER_FAVORITES");
        reveal_strlit("BROWSER_FORWARD");
        assert(key_name_spec(26) =~= "BROWSER_FAVORITES"@);
        assert(key_name_spec(27) =~= "BROWSER_FORWARD"@);
        assert("BROWSER_FAVORITES"@.take(9) =~= "BROWSER_FORWARD"@.take(9));
        assert(name_lt_at(key_name_spec(26), key_name_spec(27), 9));
    } else if i == 27 {
        reveal_strlit("BROWSER_FORWARD");
        reveal_strlit("BROWSER_HOME");
        assert(key_name_spec(27) =~= "BROWSER_FORWARD"@);
        assert(key_name_spec(28) =~= "BROWSER_HOME"@);
        assert("BROWSER_FORWARD"@.take(8) =~= "BROWSER_HOME"@.take(8));
        assert(name_lt_at(key_name_spec(27), key_name_spec(28), 8));
    } else if i == 28 {
        reveal_strlit("BROWSER_HOME");
        reveal_strlit("BROWSER_REFRESH");
        assert(key_name_spec(28) =~= "BROWSER_HOME"@);
        assert(key_name_spec(29) =~= "BROWSER_REFRESH"@);
        assert("BROWSER_HOME"@.take(8) =~= "BROWSER_REFRESH"@.take(8));
        assert(name_lt_at(key_name_spec(28), key_name_spec(29), 8));
    } else if i == 29 {
        reveal_strlit("BROWSER_REFRESH");
        reveal_strlit("BROWSER_SEARCH");
        assert(key_name_spec(29) =~= "BROWSER_REFRESH"@);
        assert(key_name_spec(30) =~= "BROWSER_SEARCH"@);
        assert("BROWSER_REFRESH"@.take(8) =~= "BROWSER_SEARCH"@.take(8));
        assert(name_lt_at(key_name_spec(29), key_name_spec(30), 8));
    } else if i == 30 {
        reveal_strlit("BROWSER_SEARCH");
        reveal_strlit("BROWSER_STOP");
        assert(key_name_spec(30) =~= "BROWSER_SEARCH"@);
        assert(key_name_spec(31) =~= "BROWSER_STOP"@);
        assert("BROWSER_SEARCH"@.take(9) =~= "BROWSER_STOP"@.take(9));
        assert(name_lt_at(key_name_spec(30), key_name_spec(31), 9));
    } else if i == 31 {
        reveal_strlit("BROWSER_STOP");
        reveal_strlit("C");
        assert(key_name_spec(31) =~= "BROWSER_STOP"@);
        assert(key_name_spec(32) =~= "C"@);
        assert("BROWSER_STOP"@.take(0) =~= "C"@.take(0));
        assert(name_lt_at(key_name_spec(31), key_name_spec(32), 0));
    } else if i == 32 {
        reveal_strlit("C");
        reveal_strlit("CAPS_LOCK");
        assert(key_name_spec(32) =~= "C"@);
        assert(key_name_spec(33) =~= "CAPS_LOCK"@);
        assert("C"@.take(1) =~= "CAPS_LOCK"@.take(1));
        assert(name_lt_at(key_name_spec(32), key_name_spec(33), 1));
    } else if i == 33 {
        reveal_strlit("CAPS_LOCK");
        reveal_strlit("COMMA");
        assert(key_name_spec(33) =~= "CAPS_LOCK"@);
        assert(key_name_spec(34) =~= "COMMA"@);
        assert("CAPS_LOCK"@.take(1) =~= "COMMA"@.take(1));
        assert(name_lt_at(key_name_spec(33), key_name_spec(34), 1));
    } else if i == 34 {
        reveal_strlit("COMMA");
        reveal_strlit("CONVERT");
        assert(key_name_spec(34) =~= "COMMA"@);
        assert(key_name_spec(35) =~= "CONVERT"@);
        assert("COMMA"@.take(2) =~= "CONVERT"@.take(2));
        assert(name_lt_at(key_name_spec(34), key_name_spec(35), 2));
    } else if i == 35 {
        reveal_strlit("CONVERT");
        reveal_strlit("CRSEL");
        assert(key_name_spec(35) =~= "CONVERT"@);
        assert(key_name_spec(36) =~= "CRSEL"@);
        assert("CONVERT"@.take(1) =~= "CRSEL"@.take(1));
        assert(name_lt_at(key_name_spec(35), key_name_spec(36), 1));
    }
}

proof fn lemma_names_sorted_36(i: int)
    requires
        36 <= i < 48,
    ensures
        name_lt(key_name_spec(i as u8), key_name_spec((i + 1) as u8)),
{
    if i == 36 {
        reveal_strlit("CRSEL");
        reveal_strlit("CTRL");
        assert(key_name_spec(36) =~= "CRSEL"@);
        assert(key_name_spec(37) =~= "CTRL"@);
        assert("CRSEL"@.take(1) =~= "CTRL"@.take(1));
        assert(name_lt_at(key_name_spec(36), key_name_spec(37), 1));
    } else if i == 37 {
        reveal_strlit("CTRL");
        reveal_strlit("D");
        assert(key_name_spec(37) =~= "CTRL"@);
        assert(key_name_spec(38) =~= "D"@);
        assert("CTRL"@.take(0) =~= "D"@.take(0));
        assert(name_lt_at(key_name_spec(37), key_name_spec(38), 0));
    } else if i == 38 {
        reveal_strlit("D");
        reveal_strlit("DELETE");
        assert(key_name_spec(38) =~= "D"@);
        assert(key_name_spec(39) =~= "DELETE"@);
        assert("D"@.take(1) =~= "DELETE"@.take(1));
        assert(name_lt_at(key_name_spec(38), key_name_spec(39), 1));
    } else if i == 39 {
        reveal_strlit("DELETE");
        reveal_strlit("DOT");
        assert(key_name_spec(39) =~= "DELETE"@);
        assert(key_name_spec(40) =~= "DOT"@);
        assert("DELETE"@.take(1) =~= "DOT"@.take(1));
        assert(name_lt_at(key_name_spec(39), key_name_spec(40), 1));
    } else if i == 40 {
        reveal_strlit("DOT");
        reveal_strlit("DOWN");
        assert(key_name_spec(40) =~= "DOT"@);
        assert(key_name_spec(41) =~= "DOWN"@);
        assert("DOT"@.take(2) =~= "DOWN"@.take(2));
        assert(name_lt_at(key_name_spec(40), key_name_spec(41), 2));
    } else if i == 41 {
        reveal_strlit("DOWN");
        reveal_strlit("E");
        assert(key_name_spec(41) =~= "DOWN"@);
        assert(key_name_spec(42) =~= "E"@);
        assert("DOWN"@.take(0) =~= "E"@.take(0));
        assert(name_lt_at(key_name_spec(41), key_name_spec(42), 0));
    } else if i == 42 {
        reveal_strlit("E");
        reveal_strlit("END");
        assert(key_name_spec(42) =~= "E"@);
        assert(key_name_spec(43) =~= "END"@);
        assert("E"@.take(1) =~= "END"@.take(1));
        assert(name_lt_at(key_name_spec(42), key_name_spec(43), 1));
    } else if i == 43 {
        reveal_strlit("END");
        reveal_strlit("ENTER");
        assert(key_name_spec(43) =~= "END"@);
        assert(key_name_spec(44) =~= "ENTER"@);
        assert("END"@.take(2) =~= "ENTER"@.take(2));
        assert(name_lt_at(key_name_spec(43), key_name_spec(44), 2));
    } else if i == 44 {
        reveal_strlit("ENTER");
        reveal_strlit("EQ");
        assert(key_name_spec(44) =~= "ENTER"@);
        assert(key_name_spec(45) =~= "EQ"@);
        assert("ENTER"@.take(1) =~= "EQ"@.take(1));
        assert(name_lt_at(key_name_spec(44), key_name_spec(45), 1));
    } else if i == 45 {
        reveal_strlit("EQ");
        reveal_strlit("EREOF");
        assert(key_name_spec(45) =~= "EQ"@);
        assert(key_name_spec(46) =~= "EREOF"@);
        assert("EQ"@.take(1) =~= "EREOF"@.take(1));
        assert(name_lt_at(key_name_spec(45), key_name_spec(46), 1));
    } else if i == 46 {
        reveal_strlit("EREOF");
        reveal_strlit("ESC");
        assert(key_name_spec(46) =~= "EREOF"@);
        assert(key_name_spec(47) =~= "ESC"@);
        assert("EREOF"@.take(1) =~= "ESC"@.take(1));
        assert(name_lt_at(key_name_spec(46), key_name_spec(47), 1));
    } else if i == 47 {
        reveal_strlit("ESC");
        reveal_strlit("EXECUTE");
        assert(key_name_spec(47) =~= "ESC"@);
        assert(key_name_spec(48) =~= "EXECUTE"@);
        assert("ESC"@.take(1) =~= "EXECUTE"@.take(1));
        assert(name_lt_at(key_name_spec(47), key_name_spec(48), 1));
    }
}

proof fn lemma_names_sorted_48(i: int)
    requires
        48 <= i < 60,
    ensures
        name_lt(key_name_spec(i as u8), key_name_spec((i + 1) as u8)),
{
    if i == 48 {
        reveal_strlit("EXECUTE");
        reveal_strlit("EXSEL");
        assert(key_name_spec(48) =~= "EXECUTE"@);
        assert(key_name_spec(49) =~= "EXSEL"@);
        assert("EXECUTE"@.take(2) =~= "EXSEL"@.take(2));
        assert(name_lt_at(key_name_spec(48), key_name_spec(49), 2));
    } else if i == 49 {
        reveal_strlit("EXSEL");
        reveal_strlit("F");
        assert(key_name_spec(49) =~= "EXSEL"@);
        assert(key_name_spec(50) =~= "F"@);
        assert("EXSEL"@.take(0) =~= "F"@.take(0));
        assert(name_lt_at(key_name_spec(49), key_name_spec(50), 0));
    } else if i == 50 {
        reveal_strlit("F");
        reveal_strlit("F1");
        assert(key_name_spec(50) =~= "F"@);
        assert(key_name_spec(51) =~= "F1"@);
        assert("F"@.take(1) =~= "F1"@.take(1));
        assert(name_lt_at(key_name_spec(50), key_name_spec(51), 1));
    } else if i == 51 {
        reveal_strlit("F1");
        reveal_strlit("F10");
        assert(key_name_spec(51) =~= "F1"@);
        assert(key_name_spec(52) =~= "F10"@);
        assert("F1"@.take(2) =~= "F10"@.take(2));
        assert(name_lt_at(key_name_spec(51), key_name_spec(52), 2));
    } else if i == 52 {
        reveal_strlit("F10");
        reveal_strlit("F11");
        assert(key_name_spec(52) =~= "F10"@);
        assert(key_name_spec(53) =~= "F11"@);
        assert("F10"@.take(2) =~= "F11"@.take(2));
        assert(name_lt_at(key_name_spec(52), key_name_spec(53), 2));
    } else if i == 53 {
        reveal_strlit("F11");
        reveal_strlit("F12");
        assert(key_name_spec(53) =~= "F11"@);
        assert(key_name_spec(54) =~= "F12"@);
        assert("F11"@.take(2) =~= "F12"@.take(2));
        assert(name_lt_at(key_name_spec(53), key_name_spec(54), 2));
    } else if i == 54 {
        reveal_strlit("F12");
        reveal_strlit("F13");
        assert(key_name_spec(54) =~= "F12"@);
        assert(key_name_spec(55) =~= "F13"@);
        assert("F12"@.take(2) =~= "F13"@.take(2));
        assert(name_lt_at(key_name_spec(54), key_name_spec(55), 2));
    } else if i == 55 {
        reveal_strlit("F13");
        reveal_strlit("F14");
        assert(key_name_spec(55) =~= "F13"@);
        assert(key_name_spec(56) =~= "F14"@);
        assert("F13"@.take(2) =~= "F14"@.take(2));
        assert(name_lt_at(key_name_spec(55), key_name_spec(56), 2));
    } else if i == 56 {
        reveal_strlit("F14");
        reveal_strlit("F15");
        assert(key_name_spec(56) =~= "F14"@);
        assert(key_name_spec(57) =~= "F15"@);
        assert("F14"@.take(2) =~= "F15"@.take(2));
        assert(name_lt_at(key_name_spec(56), key_name_spec(57), 2));
    } else if i == 57 {
        reveal_strlit("F15");
        reveal_strlit("F16");
        assert(key_name_spec(57) =~= "F15"@);
        assert(key_name_spec(58) =~= "F16"@);
        assert("F15"@.take(2) =~= "F16"@.take(2));
        assert(name_lt_at(key_name_spec(57), key_name_spec(58), 2));
    } else if i == 58 {
        reveal_strlit("F16");
        reveal_strlit("F17");
        assert(key_name_spec(58) =~= "F16"@);
        assert(key_name_spec(59) =~= "F17"@);
        assert("F16"@.take(2) =~= "F17"@.take(2));
        assert(name_lt_at(key_name_spec(58), key_name_spec(59), 2));
    } else if i == 59 {
        reveal_strlit("F17");
        reveal_strlit("F18");
        assert(key_name_spec(59) =~= "F17"@);
        assert(key_name_spec(60) =~= "F18"@);
        assert("F17"@.take(2) =~= "F18"@.take(2));
        assert(name_lt_at(key_name_spec(59), key_name_spec(60), 2));
    }
}

proof fn lemma_names_sorted_60(i: int)
    requires
        60 <= i < 72,
    ensures
        name_lt(key_name_spec(i as u8), key_name_spec((i + 1) as u8)),
{
    if i == 60 {
        reveal_strlit("F18");
        reveal_strlit("F19");
        assert(key_name_spec(60) =~= "F18"@);
        assert(key_name_spec(61) =~= "F19"@);
        assert("F18"@.take(2) =~= "F19"@.take(2));
        assert(name_lt_at(key_name_spec(60), key_name_spec(61), 2));
    } else if i == 61 {
        reveal_strlit("F19");
        reveal_strlit("F2");
        assert(key_name_spec(61) =~= "F19"@);
        assert(key_name_spec(62) =~= "F2"@);
        assert("F19"@.take(1) =~= "F2"@.take(1));
        assert(name_lt_at(key_name_spec(61), key_name_spec(62), 1));
    } else if i == 62 {
        reveal_strlit("F2");
        reveal_strlit("F20");
        assert(key_name_spec(62) =~= "F2"@);
        assert(key_name_spec(63) =~= "F20"@);
        assert("F2"@.take(2) =~= "F20"@.take(2));
        assert(name_lt_at(key_name_spec(62), key_name_spec(63), 2));
    } else if i == 63 {
        reveal_strlit("F20");
        reveal_strlit("F21");
        assert(key_name_spec(63) =~= "F20"@);
        assert(key_name_spec(64) =~= "F21"@);
        assert("F20"@.take(2) =~= "F21"@.take(2));
        assert(name_lt_at(key_name_spec(63), key_name_spec(64), 2));
    } else if i == 64 {
        reveal_strlit("F21");
        reveal_strlit("F22");
        assert(key_name_spec(64) =~= "F21"@);
        assert(key_name_spec(65) =~= "F22"@);
        assert("F21"@.take(2) =~= "F22"@.take(2));
        assert(name_lt_at(key_name_spec(64), key_name_spec(65), 2));
    } else if i == 65 {
        reveal_strlit("F22");
        reveal_strlit("F23");
        assert(key_name_spec(65) =~= "F22"@);
        assert(key_name_spec(66) =~= "F23"@);
        assert("F22"@.take(2) =~= "F23"@.take(2));
        assert(name_lt_at(key_name_spec(65), key_name_spec(66), 2));
    } else if i == 66 {
        reveal_strlit("F23");
        reveal_strlit("F24");
        assert(key_name_spec(66) =~= "F23"@);
        assert(key_name_spec(67) =~= "F24"@);
        assert("F23"@.take(2) =~= "F24"@.take(2));
        assert(name_lt_at(key_name_spec(66), key_name_spec(67), 2));
    } else if i == 67 {
        reveal_strlit("F24");
        reveal_strlit("F3");
        assert(key_name_spec(67) =~= "F24"@);
        assert(key_name_spec(68) =~= "F3"@);
        assert("F24"@.take(1) =~= "F3"@.take(1));
        assert(name_lt_at(key_name_spec(67), key_name_spec(68), 1));
    } else if i == 68 {
        reveal_strlit("F3");
        reveal_strlit("F4");
        assert(key_name_spec(68) =~= "F3"@);
        assert(key_name_spec(69) =~= "F4"@);
        assert("F3"@.take(1) =~= "F4"@.take(1));
        assert(name_lt_at(key_name_spec(68), key_name_spec(69), 1));
    } else if i == 69 {
        reveal_strlit("F4");
        reveal_strlit("F5");
        assert(key_name_spec(69) =~= "F4"@);
        assert(key_name_spec(70) =~= "F5"@);
        assert("F4"@.take(1) =~= "F5"@.take(1));
        assert(name_lt_at(key_name_spec(69), key_name_spec(70), 1));
    } else if i == 70 {
        reveal_strlit("F5");
        reveal_strlit("F6");
        assert(key_name_spec(70) =~= "F5"@);
        assert(key_name_spec(71) =~= "F6"@);
        assert("F5"@.take(1) =~= "F6"@.take(1));
        assert(name_lt_at(key_name_spec(70), key_name_spec(71), 1));
    } else if i == 71 {
        reveal_strlit("F6");
        reveal_strlit("F7");
        assert(key_name_spec(71) =~= "F6"@);
        assert(key_name_spec(72) =~= "F7"@);
        assert("F6"@.take(1) =~= "F7"@.take(1));
        assert(name_lt_at(key_name_spec(71), key_name_spec(72), 1));
    }
}

proof fn lemma_names_sorted_72(i: int)
    requires
        72 <= i < 84,
    ensures
        name_lt(key_name_spec(i as u8), key_name_spec((i + 1) as u8)),
{
    if i == 72 {
        reveal_strlit("F7");
        reveal_strlit("F8");
        assert(key_name_spec(72) =~= "F7"@);
        assert(key_name_spec(73) =~= "F8"@);
        assert("F7"@.take(1) =~= "F8"@.take(1));
        assert(name_lt_at(key_name_spec(72), key_name_spec(73), 1));
    } else if i == 73 {
        reveal_strlit("F8");
        reveal_strlit("F9");
        assert(key_name_spec(73) =~= "F8"@);
        assert(key_name_spec(74) =~= "F9"@);
        assert("F8"@.take(1) =~= "F9"@.take(1));
        assert(name_lt_at(key_name_spec(73), key_name_spec(74), 1));
    } else if i == 74 {
        reveal_strlit("F9");
        reveal_strlit("FINAL");
        assert(key_name_spec(74) =~= "F9"@);
        assert(key_name_spec(75) =~= "FINAL"@);
        assert("F9"@.take(1) =~= "FINAL"@.take(1));
        assert(name_lt_at(key_name_spec(74), key_name_spec(75), 1));
    } else if i == 75 {
        reveal_strlit("FINAL");
        reveal_strlit("FN_BROWSER_HOME");
        assert(key_name_spec(75) =~= "FINAL"@);
        assert(key_name_spec(76) =~= "FN_BROWSER_HOME"@);
        assert("FINAL"@.take(1) =~= "FN_BROWSER_HOME"@.take(1));
        assert(name_lt_at(key_name_spec(75), key_name_spec(76), 1));
    } else if i == 76 {
        reveal_strlit("FN_BROWSER_HOME");
        reveal_strlit("FN_BROWSER_SEARCH");
        assert(key_name_spec(76) =~= "FN_BROWSER_HOME"@);
        assert(key_name_spec(77) =~= "FN_BROWSER_SEARCH"@);
        assert("FN_BROWSER_HOME"@.take(11) =~= "FN_BROWSER_SEARCH"@.take(11));
        assert(name_lt_at(key_name_spec(76), key_name_spec(77), 11));
    } else if i == 77 {
        reveal_strlit("FN_BROWSER_SEARCH");
        reveal_strlit("FN_LAUNCH_APP1");
        assert(key_name_spec(77) =~= "FN_BROWSER_SEARCH"@);
        assert(key_name_spec(78) =~= "FN_LAUNCH_APP1"@);
        assert("FN_BROWSER_SEARCH"@.take(3) =~= "FN_LAUNCH_APP1"@.take(3));
        assert(name_lt_at(key_name_spec(77), key_name_spec(78), 3));
    } else if i == 78 {
        reveal_strlit("FN_LAUNCH_APP1");
        reveal_strlit("FN_LAUNCH_APP2");
        assert(key_name_spec(78) =~= "FN_LAUNCH_APP1"@);
        assert(key_name_spec(79) =~= "FN_LAUNCH_APP2"@);
        assert("FN_LAUNCH_APP1"@.take(13) =~= "FN_LAUNCH_APP2"@.take(13));
        assert(name_lt_at(key_name_spec(78), key_name_spec(79), 13));
    } else if i == 79 {
        reveal_strlit("FN_LAUNCH_APP2");
        reveal_strlit("FN_LAUNCH_MAIL");
        assert(key_name_spec(79) =~= "FN_LAUNCH_APP2"@);
        assert(key_name_spec(80) =~= "FN_LAUNCH_MAIL"@);
        assert("FN_LAUNCH_APP2"@.take(10) =~= "FN_LAUNCH_MAIL"@.take(10));
        assert(name_lt_at(key_name_spec(79), key_name_spec(80), 10));
    } else if i == 80 {
        reveal_strlit("FN_LAUNCH_MAIL");
        reveal_strlit("FN_MEDIA_NEXT_TRACK");
        assert(key_name_spec(80) =~= "FN_LAUNCH_MAIL"@);
        assert(key_name_spec(81) =~= "FN_MEDIA_NEXT_TRACK"@);
        assert("FN_LAUNCH_MAIL"@.take(3) =~= "FN_MEDIA_NEXT_TRACK"@.take(3));
        assert(name_lt_at(key_name_spec(80), key_name_spec(81), 3));
    } else if i == 81 {
        reveal_strlit("FN_MEDIA_NEXT_TRACK");
        reveal_strlit("FN_MEDIA_PLAY_PAUSE");
        assert(key_name_spec(81) =~= "FN_MEDIA_NEXT_TRACK"@);
        assert(key_name_spec(82) =~= "FN_MEDIA_PLAY_PAUSE"@);
        assert("FN_MEDIA_NEXT_TRACK"@.take(9) =~= "FN_MEDIA_PLAY_PAUSE"@.take(9));
        assert(name_lt_at(key_name_spec(81), key_name_spec(82), 9));
    } else if i == 82 {
        reveal_strlit("FN_MEDIA_PLAY_PAUSE");
        reveal_strlit("FN_MEDIA_PREV_TRACK");
        assert(key_name_spec(82) =~= "FN_MEDIA_PLAY_PAUSE"@);
        assert(key_name_spec(83) =~= "FN_MEDIA_PREV_TRACK"@);
        assert("FN_MEDIA_PLAY_PAUSE"@.take(10) =~= "FN_MEDIA_PREV_TRACK"@.take(10));
        assert(name_lt_at(key_name_spec(82), key_name_spec(83), 10));
    } else if i == 83 {
        reveal_strlit("FN_MEDIA_PREV_TRACK");
        reveal_strlit("FN_VOLUME_DOWN");
        assert(key_name_spec(83) =~= "FN_MEDIA_PREV_TRACK"@);
        assert(key_name_spec(84) =~= "FN_VOLUME_DOWN"@);
        assert("FN_MEDIA_PREV_TRACK"@.take(3) =~= "FN_VOLUME_DOWN"@.take(3));
        assert(name_lt_at(key_name_spec(83), key_name_spec(84), 3));
    }
}

proof fn lemma_names_sorted_84(i: int)
    requires
        84 <= i < 96,
    ensures
        name_lt(key_name_spec(i as u8), key_name_spec((i + 1) as u8)),
{
    if i == 84 {
        reveal_strlit("FN_VOLUME_DOWN");
        reveal_strlit("FN_VOLUME_MUTE");
        assert(key_name_spec(84) =~= "FN_VOLUME_DOWN"@);
        assert(key_name_spec(85) =~= "FN_VOLUME_MUTE"@);
        assert("FN_VOLUME_DOWN"@.take(10) =~= "FN_VOLUME_MUTE"@.take(10));
        assert(name_lt_at(key_name_spec(84), key_name_spec(85), 10));
    } else if i == 85 {
        reveal_strlit("FN_VOLUME_MUTE");
        reveal_strlit("FN_VOLUME_UP");
        assert(key_name_spec(85) =~= "FN_VOLUME_MUTE"@);
        assert(key_name_spec(86) =~= "FN_VOLUME_UP"@);
        assert("FN_VOLUME_MUTE"@.take(10) =~= "FN_VOLUME_UP"@.take(10));
        assert(name_lt_at(key_name_spec(85), key_name_spec(86), 10));
    } else if i == 86 {
        reveal_strlit("FN_VOLUME_UP");
        reveal_strlit("G");
        assert(key_name_spec(86) =~= "FN_VOLUME_UP"@);
        assert(key_name_spec(87) =~= "G"@);
        assert("FN_VOLUME_UP"@.take(0) =~= "G"@.take(0));
        assert(name_lt_at(key_name_spec(86), key_name_spec(87), 0));
    } else if i == 87 {
        reveal_strlit("G");
        reveal_strlit("H");
        assert(key_name_spec(87) =~= "G"@);
        assert(key_name_spec(88) =~= "H"@);
        assert("G"@.take(0) =~= "H"@.take(0));
        assert(name_lt_at(key_name_spec(87), key_name_spec(88), 0));
    } else if i == 88 {
        reveal_strlit("H");
        reveal_strlit("HANJA");
        assert(key_name_spec(88) =~= "H"@);
        assert(key_name_spec(89) =~= "HANJA"@);
        assert("H"@.take(1) =~= "HANJA"@.take(1));
        assert(name_lt_at(key_name_spec(88), key_name_spec(89), 1));
    } else if i == 89 {
        reveal_strlit("HANJA");
        reveal_strlit("HELP");
        assert(key_name_spec(89) =~= "HANJA"@);
        assert(key_name_spec(90) =~= "HELP"@);
        assert("HANJA"@.take(1) =~= "HELP"@.take(1));
        assert(name_lt_at(key_name_spec(89), key_name_spec(90), 1));
    } else if i == 90 {
        reveal_strlit("HELP");
        reveal_strlit("HOME");
        assert(key_name_spec(90) =~= "HELP"@);
        assert(key_name_spec(91) =~= "HOME"@);
        assert("HELP"@.take(1) =~= "HOME"@.take(1));
        assert(name_lt_at(key_name_spec(90), key_name_spec(91), 1));
    } else if i == 91 {
        reveal_strlit("HOME");
        reveal_strlit("I");
        assert(key_name_spec(91) =~= "HOME"@);
        assert(key_name_spec(92) =~= "I"@);
        assert("HOME"@.take(0) =~= "I"@.take(0));
        assert(name_lt_at(key_name_spec(91), key_name_spec(92), 0));
    } else if i == 92 {
        reveal_strlit("I");
        reveal_strlit("IME_OFF");
        assert(key_name_spec(92) =~= "I"@);
        assert(key_name_spec(93) =~= "IME_OFF"@);
        assert("I"@.take(1) =~= "IME_OFF"@.take(1));
        assert(name_lt_at(key_name_spec(92), key_name_spec(93), 1));
    } else if i == 93 {
        reveal_strlit("IME_OFF");
        reveal_strlit("IME_ON");
        assert(key_name_spec(93) =~= "IME_OFF"@);
        assert(key_name_spec(94) =~= "IME_ON"@);
        assert("IME_OFF"@.take(5) =~= "IME_ON"@.take(5));
        assert(name_lt_at(key_name_spec(93), key_name_spec(94), 5));
    } else if i == 94 {
        reveal_strlit("IME_ON");
        reveal_strlit("INSERT");
        assert(key_name_spec(94) =~= "IME_ON"@);
        assert(key_name_spec(95) =~= "INSERT"@);
        assert("IME_ON"@.take(1) =~= "INSERT"@.take(1));
        assert(name_lt_at(key_name_spec(94), key_name_spec(95), 1));
    } else if i == 95 {
        reveal_strlit("INSERT");
        reveal_strlit("J");
        assert(key_name_spec(95) =~= "INSERT"@);
        assert(key_name_spec(96) =~= "J"@);
        assert("INSERT"@.take(0) =~= "J"@.take(0));
        assert(name_lt_at(key_name_spec(95), key_name_spec(96), 0));
    }
}

proof fn lemma_names_sorted_96(i: int)
    requires
        96 <= i < 108,
    ensures
        name_lt(key_name_spec(i as u8), key_name_spec((i + 1) as u8)),
{
    if i == 96 {
        reveal_strlit("J");
        reveal_strlit("JUNJA");
        assert(key_name_spec(96) =~= "J"@);
        assert(key_name_spec(97) =~= "JUNJA"@);
        assert("J"@.take(1) =~= "JUNJA"@.take(1));
        assert(name_lt_at(key_name_spec(96), key_name_spec(97), 1));
    } else if i == 97 {
        reveal_strlit("JUNJA");
        reveal_strlit("K");
        assert(key_name_spec(97) =~= "JUNJA"@);
        assert(key_name_spec(98) =~= "K"@);
        assert("JUNJA"@.take(0) =~= "K"@.take(0));
        assert(name_lt_at(key_name_spec(97), key_name_spec(98), 0));
    } else if i == 98 {
        reveal_strlit("K");
        reveal_strlit("KANA");
        assert(key_name_spec(98) =~= "K"@);
        assert(key_name_spec(99) =~= "KANA"@);
        assert("K"@.take(1) =~= "KANA"@.take(1));
        assert(name_lt_at(key_name_spec(98), key_name_spec(99), 1));
    } else if i == 99 {
        reveal_strlit("KANA");
        reveal_strlit("L");
        assert(key_name_spec(99) =~= "KANA"@);
        assert(key_name_spec(100) =~= "L"@);
        assert("KANA"@.take(0) =~= "L"@.take(0));
        assert(name_lt_at(key_name_spec(99), key_name_spec(100), 0));
    } else if i == 100 {
        reveal_strlit("L");
        reveal_strlit("LAUNCH_APP1");
        assert(key_name_spec(100) =~= "L"@);
        assert(key_name_spec(101) =~= "LAUNCH_APP1"@);
        assert("L"@.take(1) =~= "LAUNCH_APP1"@.take(1));
        assert(name_lt_at(key_name_spec(100), key_name_spec(101), 1));
    } else if i == 101 {
        reveal_strlit("LAUNCH_APP1");
        reveal_strlit("LAUNCH_APP2");
        assert(key_name_spec(101) =~= "LAUNCH_APP1"@);
        assert(key_name_spec(102) =~= "LAUNCH_APP2"@);
        assert("LAUNCH_APP1"@.take(10) =~= "LAUNCH_APP2"@.take(10));
        assert(name_lt_at(key_name_spec(101), key_name_spec(102), 10));
    } else if i == 102 {
        reveal_strlit("LAUNCH_APP2");
        reveal_strlit("LAUNCH_MAIL");
        assert(key_name_spec(102) =~= "LAUNCH_APP2"@);
        assert(key_name_spec(103) =~= "LAUNCH_MAIL"@);
        assert("LAUNCH_APP2"@.take(7) =~= "LAUNCH_MAIL"@.take(7));
        assert(name_lt_at(key_name_spec(102), key_name_spec(103), 7));
    } else if i == 103 {
        reveal_strlit("LAUNCH_MAIL");
        reveal_strlit("LAUNCH_MEDIA_SELECT");
        assert(key_name_spec(103) =~= "LAUNCH_MAIL"@);
        assert(key_name_spec(104) =~= "LAUNCH_MEDIA_SELECT"@);
        assert("LAUNCH_MAIL"@.take(8) =~= "LAUNCH_MEDIA_SELECT"@.take(8));
        assert(name_lt_at(key_name_spec(103), key_name_spec(104), 8));
    } else if i == 104 {
        reveal_strlit("LAUNCH_MEDIA_SELECT");
        reveal_strlit("LEFT");
        assert(key_name_spec(104) =~= "LAUNCH_MEDIA_SELECT"@);
        assert(key_name_spec(105) =~= "LEFT"@);
        assert("LAUNCH_MEDIA_SELECT"@.take(1) =~= "LEFT"@.take(1));
        assert(name_lt_at(key_name_spec(104), key_name_spec(105), 1));
    } else if i == 105 {
        reveal_strlit("LEFT");
        reveal_strlit("LEFT_ALT");
        assert(key_name_spec(105) =~= "LEFT"@);
        assert(key_name_spec(106) =~= "LEFT_ALT"@);
        assert("LEFT"@.take(4) =~= "LEFT_ALT"@.take(4));
        assert(name_lt_at(key_name_spec(105), key_name_spec(106), 4));
    } else if i == 106 {
        reveal_strlit("LEFT_ALT");
        reveal_strlit("LEFT_BRACKET");
        assert(key_name_spec(106) =~= "LEFT_ALT"@);
        assert(key_name_spec(107) =~= "LEFT_BRACKET"@);
        assert("LEFT_ALT"@.take(5) =~= "LEFT_BRACKET"@.take(5));
        assert(name_lt_at(key_name_spec(106), key_name_spec(107), 5));
    } else if i == 107 {
        reveal_strlit("LEFT_BRACKET");
        reveal_strlit("LEFT_BUTTON");
        assert(key_name_spec(107) =~= "LEFT_BRACKET"@);
        assert(key_name_spec(108) =~= "LEFT_BUTTON"@);
        assert("LEFT_BRACKET"@.take(6) =~= "LEFT_BUTTON"@.take(6));
        assert(name_lt_at(key_name_spec(107), key_name_spec(108), 6));
    }
}

proof fn lemma_names_sorted_108(i: int)
    requires
        108 <= i < 120,
    ensures
        name_lt(key_name_spec(i as u8), key_name_spec((i + 1) as u8)),
{
    if i == 108 {
        reveal_strlit("LEFT_BUTTON");
        reveal_strlit("LEFT_CTRL");
        assert(key_name_spec(108) =~= "LEFT_BUTTON"@);
        assert(key_name_spec(109) =~= "LEFT_CTRL"@);
        assert("LEFT_BUTTON"@.take(5) =~= "LEFT_CTRL"@.take(5));
        assert(name_lt_at(key_name_spec(108), key_name_spec(109), 5));
    } else if i == 109 {
        reveal_strlit("LEFT_CTRL");
        reveal_strlit("LEFT_SHIFT");
        assert(key_name_spec(109) =~= "LEFT_CTRL"@);
        assert(key_name_spec(110) =~= "LEFT_SHIFT"@);
        assert("LEFT_CTRL"@.take(5) =~= "LEFT_SHIFT"@.take(5));
        assert(name_lt_at(key_name_spec(109), key_name_spec(110), 5));
    } else if i == 110 {
        reveal_strlit("LEFT_SHIFT");
        reveal_strlit("LEFT_WIN");
        assert(key_name_spec(110) =~= "LEFT_SHIFT"@);
        assert(key_name_spec(111) =~= "LEFT_WIN"@);
        assert("LEFT_SHIFT"@.take(5) =~= "LEFT_WIN"@.take(5));
        assert(name_lt_at(key_name_spec(110), key_name_spec(111), 5));
    } else if i == 111 {
        reveal_strlit("LEFT_WIN");
        reveal_strlit("M");
        assert(key_name_spec(111) =~= "LEFT_WIN"@);
        assert(key_name_spec(112) =~= "M"@);
        assert("LEFT_WIN"@.take(0) =~= "M"@.take(0));
        assert(name_lt_at(key_name_spec(111), key_name_spec(112), 0));
    } else if i == 112 {
        reveal_strlit("M");
        reveal_strlit("MEDIA_NEXT_TRACK");
        assert(key_name_spec(112) =~= "M"@);
        assert(key_name_spec(113) =~= "MEDIA_NEXT_TRACK"@);
        assert("M"@.take(1) =~= "MEDIA_NEXT_TRACK"@.take(1));
        assert(name_lt_at(key_name_spec(112), key_name_spec(113), 1));
    } else if i == 113 {
        reveal_strlit("MEDIA_NEXT_TRACK");
        reveal_strlit("MEDIA_PLAY_PAUSE");
        assert(key_name_spec(113) =~= "MEDIA_NEXT_TRACK"@);
        assert(key_name_spec(114) =~= "MEDIA_PLAY_PAUSE"@);
        assert("MEDIA_NEXT_TRACK"@.take(6) =~= "MEDIA_PLAY_PAUSE"@.take(6));
        assert(name_lt_at(key_name_spec(113), key_name_spec(114), 6));
    } else if i == 114 {
        reveal_strlit("MEDIA_PLAY_PAUSE");
        reveal_strlit("MEDIA_PREV_TRACK");
        assert(key_name_spec(114) =~= "MEDIA_PLAY_PAUSE"@);
        assert(key_name_spec(115) =~= "MEDIA_PREV_TRACK"@);
        assert("MEDIA_PLAY_PAUSE"@.take(7) =~= "MEDIA_PREV_TRACK"@.take(7));
        assert(name_lt_at(key_name_spec(114), key_name_spec(115), 7));
    } else if i == 115 {
        reveal_strlit("MEDIA_PREV_TRACK");
        reveal_strlit("MEDIA_STOP");
        assert(key_name_spec(115) =~= "MEDIA_PREV_TRACK"@);
        assert(key_name_spec(116) =~= "MEDIA_STOP"@);
        assert("MEDIA_PREV_TRACK"@.take(6) =~= "MEDIA_STOP"@.take(6));
        assert(name_lt_at(key_name_spec(115), key_name_spec(116), 6));
    } else if i == 116 {
        reveal_strlit("MEDIA_STOP");
        reveal_strlit("MENU");
        assert(key_name_spec(116) =~= "MEDIA_STOP"@);
        assert(key_name_spec(117) =~= "MENU"@);
        assert("MEDIA_STOP"@.take(2) =~= "MENU"@.take(2));
        assert(name_lt_at(key_name_spec(116), key_name_spec(117), 2));
    } else if i == 117 {
        reveal_strlit("MENU");
        reveal_strlit("MIDDLE_BUTTON");
        assert(key_name_spec(117) =~= "MENU"@);
        assert(key_name_spec(118) =~= "MIDDLE_BUTTON"@);
        assert("MENU"@.take(1) =~= "MIDDLE_BUTTON"@.take(1));
        assert(name_lt_at(key_name_spec(117), key_name_spec(118), 1));
    } else if i == 118 {
        reveal_strlit("MIDDLE_BUTTON");
        reveal_strlit("MINUS");
        assert(key_name_spec(118) =~= "MIDDLE_BUTTON"@);
        assert(key_name_spec(119) =~= "MINUS"@);
        assert("MIDDLE_BUTTON"@.take(2) =~= "MINUS"@.take(2));
        assert(name_lt_at(key_name_spec(118), key_name_spec(119), 2));
    } else if i == 119 {
        reveal_strlit("MINUS");
        reveal_strlit("MODE_CHANGE");
        assert(key_name_spec(119) =~= "MINUS"@);
        assert(key_name_spec(120) =~= "MODE_CHANGE"@);
        assert("MINUS"@.take(1) =~= "MODE_CHANGE"@.take(1));
        assert(name_lt_at(key_name_spec(119), key_name_spec(120), 1));
    }
}

proof fn lemma_names_sorted_120(i: int)
    requires
        120 <= i < 132,
    ensures
        name_lt(key_name_spec(i as u8), key_name_spec((i + 1) as u8)),
{
    if i == 120 {
        reveal_strlit("MODE_CHANGE");
        reveal_strlit("N");
        assert(key_name_spec(120) =~= "MODE_CHANGE"@);
        assert(key_name_spec(121) =~= "N"@);
        assert("MODE_CHANGE"@.take(0) =~= "N"@.take(0));
        assert(name_lt_at(key_name_spec(120), key_name_spec(121), 0));
    } else if i == 121 {
        reveal_strlit("N");
        reveal_strlit("NONAME");
        assert(key_name_spec(121) =~= "N"@);
        assert(key_name_spec(122) =~= "NONAME"@);
        assert("N"@.take(1) =~= "NONAME"@.take(1));
        assert(name_lt_at(key_name_spec(121), key_name_spec(122), 1));
    } else if i == 122 {
        reveal_strlit("NONAME");
        reveal_strlit("NON_CONVERT");
        assert(key_name_spec(122) =~= "NONAME"@);
        assert(key_name_spec(123) =~= "NON_CONVERT"@);
        assert("NONAME"@.take(3) =~= "NON_CONVERT"@.take(3));
        assert(name_lt_at(key_name_spec(122), key_name_spec(123), 3));
    } else if i == 123 {
        reveal_strlit("NON_CONVERT");
        reveal_strlit("NUM_0");
        assert(key_name_spec(123) =~= "NON_CONVERT"@);
        assert(key_name_spec(124) =~= "NUM_0"@);
        assert("NON_CONVERT"@.take(1) =~= "NUM_0"@.take(1));
        assert(name_lt_at(key_name_spec(123), key_name_spec(124), 1));
    } else if i == 124 {
        reveal_strlit("NUM_0");
        reveal_strlit("NUM_1");
        assert(key_name_spec(124) =~= "NUM_0"@);
        assert(key_name_spec(125) =~= "NUM_1"@);
        assert("NUM_0"@.take(4) =~= "NUM_1"@.take(4));
        assert(name_lt_at(key_name_spec(124), key_name_spec(125), 4));
    } else if i == 125 {
        reveal_strlit("NUM_1");
        reveal_strlit("NUM_2");
        assert(key_name_spec(125) =~= "NUM_1"@);
        assert(key_name_spec(126) =~= "NUM_2"@);
        assert("NUM_1"@.take(4) =~= "NUM_2"@.take(4));
        assert(name_lt_at(key_name_spec(125), key_name_spec(126), 4));
    } else if i == 126 {
        reveal_strlit("NUM_2");
        reveal_strlit("NUM_3");
        assert(key_name_spec(126) =~= "NUM_2"@);
        assert(key_name_spec(127) =~= "NUM_3"@);
        assert("NUM_2"@.take(4) =~= "NUM_3"@.take(4));
        assert(name_lt_at(key_name_spec(126), key_name_spec(127), 4));
    } else if i == 127 {
        reveal_strlit("NUM_3");
        reveal_strlit("NUM_4");
        assert(key_name_spec(127) =~= "NUM_3"@);
        assert(key_name_spec(128) =~= "NUM_4"@);
        assert("NUM_3"@.take(4) =~= "NUM_4"@.take(4));
        assert(name_lt_at(key_name_spec(127), key_name_spec(128), 4));
    } else if i == 128 {
        reveal_strlit("NUM_4");
        reveal_strlit("NUM_5");
        assert(key_name_spec(128) =~= "NUM_4"@);
        assert(key_name_spec(129) =~= "NUM_5"@);
        assert("NUM_4"@.take(4) =~= "NUM_5"@.take(4));
        assert(name_lt_at(key_name_spec(128), key_name_spec(129), 4));
    } else if i == 129 {
        reveal_strlit("NUM_5");
        reveal_strlit("NUM_6");
        assert(key_name_spec(129) =~= "NUM_5"@);
        assert(key_name_spec(130) =~= "NUM_6"@);
        assert("NUM_5"@.take(4) =~= "NUM_6"@.take(4));
        assert(name_lt_at(key_name_spec(129), key_name_spec(130), 4));
    } else if i == 130 {
        reveal_strlit("NUM_6");
        reveal_strlit("NUM_7");
        assert(key_name_spec(130) =~= "NUM_6"@);
        assert(key_name_spec(131) =~= "NUM_7"@);
        assert("NUM_6"@.take(4) =~= "NUM_7"@.take(4));
        assert(name_lt_at(key_name_spec(130), key_name_spec(131), 4));
    } else if i == 131 {
        reveal_strlit("NUM_7");
        reveal_strlit("NUM_8");
        assert(key_name_spec(131) =~= "NUM_7"@);
        assert(key_name_spec(132) =~= "NUM_8"@);
        assert("NUM_7"@.take(4) =~= "NUM_8"@.take(4));
        assert(name_lt_at(key_name_spec(131), key_name_spec(132), 4));
    }
}

proof fn lemma_names_sorted_132(i: int)
    requires
        132 <= i < 144,
    ensures
        name_lt(key_name_spec(i as u8), key_name_spec((i + 1) as u8)),
{
    if i == 132 {
        reveal_strlit("NUM_8");
        reveal_strlit("NUM_9");
        assert(key_name_spec(132) =~= "NUM_8"@);
        assert(key_name_spec(133) =~= "NUM_9"@);
        assert("NUM_8"@.take(4) =~= "NUM_9"@.take(4));
        assert(name_lt_at(key_name_spec(132), key_name_spec(133), 4));
    } else if i == 133 {
        reveal_strlit("NUM_9");
        reveal_strlit("NUM_CLEAR");
        assert(key_name_spec(133) =~= "NUM_9"@);
        assert(key_name_spec(134) =~= "NUM_CLEAR"@);
        assert("NUM_9"@.take(4) =~= "NUM_CLEAR"@.take(4));
        assert(name_lt_at(key_name_spec(133), key_name_spec(134), 4));
    } else if i == 134 {
        reveal_strlit("NUM_CLEAR");
        reveal_strlit("NUM_DELETE");
        assert(key_name_spec(134) =~= "NUM_CLEAR"@);
        assert(key_name_spec(135) =~= "NUM_DELETE"@);
        assert("NUM_CLEAR"@.take(4) =~= "NUM_DELETE"@.take(4));
        assert(name_lt_at(key_name_spec(134), key_name_spec(135), 4));
    } else if i == 135 {
        reveal_strlit("NUM_DELETE");
        reveal_strlit("NUM_DIV");
        assert(key_name_spec(135) =~= "NUM_DELETE"@);
        assert(key_name_spec(136) =~= "NUM_DIV"@);
        assert("NUM_DELETE"@.take(5) =~= "NUM_DIV"@.take(5));
        assert(name_lt_at(key_name_spec(135), key_name_spec(136), 5));
    } else if i == 136 {
        reveal_strlit("NUM_DIV");
        reveal_strlit("NUM_DOT");
        assert(key_name_spec(136) =~= "NUM_DIV"@);
        assert(key_name_spec(137) =~= "NUM_DOT"@);
        assert("NUM_DIV"@.take(5) =~= "NUM_DOT"@.take(5));
        assert(name_lt_at(key_name_spec(136), key_name_spec(137), 5));
    } else if i == 137 {
        reveal_strlit("NUM_DOT");
        reveal_strlit("NUM_DOWN");
        assert(key_name_spec(137) =~= "NUM_DOT"@);
        assert(key_name_spec(138) =~= "NUM_DOWN"@);
        assert("NUM_DOT"@.take(6) =~= "NUM_DOWN"@.take(6));
        assert(name_lt_at(key_name_spec(137), key_name_spec(138), 6));
    } else if i == 138 {
        reveal_strlit("NUM_DOWN");
        reveal_strlit("NUM_END");
        assert(key_name_spec(138) =~= "NUM_DOWN"@);
        assert(key_name_spec(139) =~= "NUM_END"@);
        assert("NUM_DOWN"@.take(4) =~= "NUM_END"@.take(4));
        assert(name_lt_at(key_name_spec(138), key_name_spec(139), 4));
    } else if i == 139 {
        reveal_strlit("NUM_END");
        reveal_strlit("NUM_ENTER");
        assert(key_name_spec(139) =~= "NUM_END"@);
        assert(key_name_spec(140) =~= "NUM_ENTER"@);
        assert("NUM_END"@.take(6) =~= "NUM_ENTER"@.take(6));
        assert(name_lt_at(key_name_spec(139), key_name_spec(140), 6));
    } else if i == 140 {
        reveal_strlit("NUM_ENTER");
        reveal_strlit("NUM_HOME");
        assert(key_name_spec(140) =~= "NUM_ENTER"@);
        assert(key_name_spec(141) =~= "NUM_HOME"@);
        assert("NUM_ENTER"@.take(4) =~= "NUM_HOME"@.take(4));
        assert(name_lt_at(key_name_spec(140), key_name_spec(141), 4));
    } else if i == 141 {
        reveal_strlit("NUM_HOME");
        reveal_strlit("NUM_INSERT");
        assert(key_name_spec(141) =~= "NUM_HOME"@);
        assert(key_name_spec(142) =~= "NUM_INSERT"@);
        assert("NUM_HOME"@.take(4) =~= "NUM_INSERT"@.take(4));
        assert(name_lt_at(key_name_spec(141), key_name_spec(142), 4));
    } else if i == 142 {
        reveal_strlit("NUM_INSERT");
        reveal_strlit("NUM_LEFT");
        assert(key_name_spec(142) =~= "NUM_INSERT"@);
        assert(key_name_spec(143) =~= "NUM_LEFT"@);
        assert("NUM_INSERT"@.take(4) =~= "NUM_LEFT"@.take(4));
        assert(name_lt_at(key_name_spec(142), key_name_spec(143), 4));
    } else if i == 143 {
        reveal_strlit("NUM_LEFT");
        reveal_strlit("NUM_LOCK");
        assert(key_name_spec(143) =~= "NUM_LEFT"@);
        assert(key_name_spec(144) =~= "NUM_LOCK"@);
        assert("NUM_LEFT"@.take(5) =~= "NUM_LOCK"@.take(5));
        assert(name_lt_at(key_name_spec(143), key_name_spec(144), 5));
    }
}

proof fn lemma_names_sorted_144(i: int)
    requires
        144 <= i < 156,
    ensures
        name_lt(key_name_spec(i as u8), key_name_spec((i + 1) as u8)),
{
    if i == 144 {
        reveal_strlit("NUM_LOCK");
        reveal_strlit("NUM_LOCK_2");
        assert(key_name_spec(144) =~= "NUM_LOCK"@);
        assert(key_name_spec(145) =~= "NUM_LOCK_2"@);
        assert("NUM_LOCK"@.take(8) =~= "NUM_LOCK_2"@.take(8));
        assert(name_lt_at(key_name_spec(144), key_name_spec(145), 8));
    } else if i == 145 {
        reveal_strlit("NUM_LOCK_2");
        reveal_strlit("NUM_MINUS");
        assert(key_name_spec(145) =~= "NUM_LOCK_2"@);
        assert(key_name_spec(146) =~= "NUM_MINUS"@);
        assert("NUM_LOCK_2"@.take(4) =~= "NUM_MINUS"@.take(4));
        assert(name_lt_at(key_name_spec(145), key_name_spec(146), 4));
    } else if i == 146 {
        reveal_strlit("NUM_MINUS");
        reveal_strlit("NUM_MUL");
        assert(key_name_spec(146) =~= "NUM_MINUS"@);
        assert(key_name_spec(147) =~= "NUM_MUL"@);
        assert("NUM_MINUS"@.take(5) =~= "NUM_MUL"@.take(5));
        assert(name_lt_at(key_name_spec(146), key_name_spec(147), 5));
    } else if i == 147 {
        reveal_strlit("NUM_MUL");
        reveal_strlit("NUM_PAGE_DOWN");
        assert(key_name_spec(147) =~= "NUM_MUL"@);
        assert(key_name_spec(148) =~= "NUM_PAGE_DOWN"@);
        assert("NUM_MUL"@.take(4) =~= "NUM_PAGE_DOWN"@.take(4));
        assert(name_lt_at(key_name_spec(147), key_name_spec(148), 4));
    } else if i == 148 {
        reveal_strlit("NUM_PAGE_DOWN");
        reveal_strlit("NUM_PAGE_UP");
        assert(key_name_spec(148) =~= "NUM_PAGE_DOWN"@);
        assert(key_name_spec(149) =~= "NUM_PAGE_UP"@);
        assert("NUM_PAGE_DOWN"@.take(9) =~= "NUM_PAGE_UP"@.take(9));
        assert(name_lt_at(key_name_spec(148), key_name_spec(149), 9));
    } else if i == 149 {
        reveal_strlit("NUM_PAGE_UP");
        reveal_strlit("NUM_PLUS");
        assert(key_name_spec(149) =~= "NUM_PAGE_UP"@);
        assert(key_name_spec(150) =~= "NUM_PLUS"@);
        assert("NUM_PAGE_UP"@.take(5) =~= "NUM_PLUS"@.take(5));
        assert(name_lt_at(key_name_spec(149), key_name_spec(150), 5));
    } else if i == 150 {
        reveal_strlit("NUM_PLUS");
        reveal_strlit("NUM_RIGHT");
        assert(key_name_spec(150) =~= "NUM_PLUS"@);
        assert(key_name_spec(151) =~= "NUM_RIGHT"@);
        assert("NUM_PLUS"@.take(4) =~= "NUM_RIGHT"@.take(4));
        assert(name_lt_at(key_name_spec(150), key_name_spec(151), 4));
    } else if i == 151 {
        reveal_strlit("NUM_RIGHT");
        reveal_strlit("NUM_UP");
        assert(key_name_spec(151) =~= "NUM_RIGHT"@);
        assert(key_name_spec(152) =~= "NUM_UP"@);
        assert("NUM_RIGHT"@.take(4) =~= "NUM_UP"@.take(4));
        assert(name_lt_at(key_name_spec(151), key_name_spec(152), 4));
    } else if i == 152 {
        reveal_strlit("NUM_UP");
        reveal_strlit("O");
        assert(key_name_spec(152) =~= "NUM_UP"@);
        assert(key_name_spec(153) =~= "O"@);
        assert("NUM_UP"@.take(0) =~= "O"@.take(0));
        assert(name_lt_at(key_name_spec(152), key_name_spec(153), 0));
    } else if i == 153 {
        reveal_strlit("O");
        reveal_strlit("OEM_8");
        assert(key_name_spec(153) =~= "O"@);
        assert(key_name_spec(154) =~= "OEM_8"@);
        assert("O"@.take(1) =~= "OEM_8"@.take(1));
        assert(name_lt_at(key_name_spec(153), key_name_spec(154), 1));
    } else if i == 154 {
        reveal_strlit("OEM_8");
        reveal_strlit("OEM_CLEAR");
        assert(key_name_spec(154) =~= "OEM_8"@);
        assert(key_name_spec(155) =~= "OEM_CLEAR"@);
        assert("OEM_8"@.take(4) =~= "OEM_CLEAR"@.take(4));
        assert(name_lt_at(key_name_spec(154), key_name_spec(155), 4));
    } else if i == 155 {
        reveal_strlit("OEM_CLEAR");
        reveal_strlit("P");
        assert(key_name_spec(155) =~= "OEM_CLEAR"@);
        assert(key_name_spec(156) =~= "P"@);
        assert("OEM_CLEAR"@.take(0) =~= "P"@.take(0));
        assert(name_lt_at(key_name_spec(155), key_name_spec(156), 0));
    }
}

proof fn lemma_names_sorted_156(i: int)
    requires
        156 <= i < 168,
    ensures
        name_lt(key_name_spec(i as u8), key_name_spec((i + 1) as u8)),
{
    if i == 156 {
        reveal_strlit("P");
        reveal_strlit("PA1");
        assert(key_name_spec(156) =~= "P"@);
        assert(key_name_spec(157) =~= "PA1"@);
        assert("P"@.take(1) =~= "PA1"@.take(1));
        assert(name_lt_at(key_name_spec(156), key_name_spec(157), 1));
    } else if i == 157 {
        reveal_strlit("PA1");
        reveal_strlit("PACKET");
        assert(key_name_spec(157) =~= "PA1"@);
        assert(key_name_spec(158) =~= "PACKET"@);
        assert("PA1"@.take(2) =~= "PACKET"@.take(2));
        assert(name_lt_at(key_name_spec(157), key_name_spec(158), 2));
    } else if i == 158 {
        reveal_strlit("PACKET");
        reveal_strlit("PAGE_DOWN");
        assert(key_name_spec(158) =~= "PACKET"@);
        assert(key_name_spec(159) =~= "PAGE_DOWN"@);
        assert("PACKET"@.take(2) =~= "PAGE_DOWN"@.take(2));
        assert(name_lt_at(key_name_spec(158), key_name_spec(159), 2));
    } else if i == 159 {
        reveal_strlit("PAGE_DOWN");
        reveal_strlit("PAGE_UP");
        assert(key_name_spec(159) =~= "PAGE_DOWN"@);
        assert(key_name_spec(160) =~= "PAGE_UP"@);
        assert("PAGE_DOWN"@.take(5) =~= "PAGE_UP"@.take(5));
        assert(name_lt_at(key_name_spec(159), key_name_spec(160), 5));
    } else if i == 160 {
        reveal_strlit("PAGE_UP");
        reveal_strlit("PAUSE");
        assert(key_name_spec(160) =~= "PAGE_UP"@);
        assert(key_name_spec(161) =~= "PAUSE"@);
        assert("PAGE_UP"@.take(2) =~= "PAUSE"@.take(2));
        assert(name_lt_at(key_name_spec(160), key_name_spec(161), 2));
    } else if i == 161 {
        reveal_strlit("PAUSE");
        reveal_strlit("PLAY");
        assert(key_name_spec(161) =~= "PAUSE"@);
        assert(key_name_spec(162) =~= "PLAY"@);
        assert("PAUSE"@.take(1) =~= "PLAY"@.take(1));
        assert(name_lt_at(key_name_spec(161), key_name_spec(162), 1));
    } else if i == 162 {
        reveal_strlit("PLAY");
        reveal_strlit("PLUS");
        assert(key_name_spec(162) =~= "PLAY"@);
        assert(key_name_spec(163) =~= "PLUS"@);
        assert("PLAY"@.take(2) =~= "PLUS"@.take(2));
        assert(name_lt_at(key_name_spec(162), key_name_spec(163), 2));
    } else if i == 163 {
        reveal_strlit("PLUS");
        reveal_strlit("PRINT");
        assert(key_name_spec(163) =~= "PLUS"@);
        assert(key_name_spec(164) =~= "PRINT"@);
        assert("PLUS"@.take(1) =~= "PRINT"@.take(1));
        assert(name_lt_at(key_name_spec(163), key_name_spec(164), 1));
    } else if i == 164 {
        reveal_strlit("PRINT");
        reveal_strlit("PRINT_SCREEN");
        assert(key_name_spec(164) =~= "PRINT"@);
        assert(key_name_spec(165) =~= "PRINT_SCREEN"@);
        assert("PRINT"@.take(5) =~= "PRINT_SCREEN"@.take(5));
        assert(name_lt_at(key_name_spec(164), key_name_spec(165), 5));
    } else if i == 165 {
        reveal_strlit("PRINT_SCREEN");
        reveal_strlit("PROCESS_KEY");
        assert(key_name_spec(165) =~= "PRINT_SCREEN"@);
        assert(key_name_spec(166) =~= "PROCESS_KEY"@);
        assert("PRINT_SCREEN"@.take(2) =~= "PROCESS_KEY"@.take(2));
        assert(name_lt_at(key_name_spec(165), key_name_spec(166), 2));
    } else if i == 166 {
        reveal_strlit("PROCESS_KEY");
        reveal_strlit("Q");
        assert(key_name_spec(166) =~= "PROCESS_KEY"@);
        assert(key_name_spec(167) =~= "Q"@);
        assert("PROCESS_KEY"@.take(0) =~= "Q"@.take(0));
        assert(name_lt_at(key_name_spec(166), key_name_spec(167), 0));
    } else if i == 167 {
        reveal_strlit("Q");
        reveal_strlit("R");
        assert(key_name_spec(167) =~= "Q"@);
        assert(key_name_spec(168) =~= "R"@);
        assert("Q"@.take(0) =~= "R"@.take(0));
        assert(name_lt_at(key_name_spec(167), key_name_spec(168), 0));
    }
}

proof fn lemma_names_sorted_168(i: int)
    requires
        168 <= i < 180,
    ensures
        name_lt(key_name_spec(i as u8), key_name_spec((i + 1) as u8)),
{
    if i == 168 {
        reveal_strlit("R");
        reveal_strlit("RIGHT");
        assert(key_name_spec(168) =~= "R"@);
        assert(key_name_spec(169) =~= "RIGHT"@);
        assert("R"@.take(1) =~= "RIGHT"@.take(1));
        assert(name_lt_at(key_name_spec(168), key_name_spec(169), 1));
    } else if i == 169 {
        reveal_strlit("RIGHT");
        reveal_strlit("RIGHT_ALT");
        assert(key_name_spec(169) =~= "RIGHT"@);
        assert(key_name_spec(170) =~= "RIGHT_ALT"@);
        assert("RIGHT"@.take(5) =~= "RIGHT_ALT"@.take(5));
        assert(name_lt_at(key_name_spec(169), key_name_spec(170), 5));
    } else if i == 170 {
        reveal_strlit("RIGHT_ALT");
        reveal_strlit("RIGHT_BRACKET");
        assert(key_name_spec(170) =~= "RIGHT_ALT"@);
        assert(key_name_spec(171) =~= "RIGHT_BRACKET"@);
        assert("RIGHT_ALT"@.take(6) =~= "RIGHT_BRACKET"@.take(6));
        assert(name_lt_at(key_name_spec(170), key_name_spec(171), 6));
    } else if i == 171 {
        reveal_strlit("RIGHT_BRACKET");
        reveal_strlit("RIGHT_BUTTON");
        assert(key_name_spec(171) =~= "RIGHT_BRACKET"@);
        assert(key_name_spec(172) =~= "RIGHT_BUTTON"@);
        assert("RIGHT_BRACKET"@.take(7) =~= "RIGHT_BUTTON"@.take(7));
        assert(name_lt_at(key_name_spec(171), key_name_spec(172), 7));
    } else if i == 172 {
        reveal_strlit("RIGHT_BUTTON");
        reveal_strlit("RIGHT_CTRL");
        assert(key_name_spec(172) =~= "RIGHT_BUTTON"@);
        assert(key_name_spec(173) =~= "RIGHT_CTRL"@);
        assert("RIGHT_BUTTON"@.take(6) =~= "RIGHT_CTRL"@.take(6));
        assert(name_lt_at(key_name_spec(172), key_name_spec(173), 6));
    } else if i == 173 {
        reveal_strlit("RIGHT_CTRL");
        reveal_strlit("RIGHT_SHIFT");
        assert(key_name_spec(173) =~= "RIGHT_CTRL"@);
        assert(key_name_spec(174) =~= "RIGHT_SHIFT"@);
        assert("RIGHT_CTRL"@.take(6) =~= "RIGHT_SHIFT"@.take(6));
        assert(name_lt_at(key_name_spec(173), key_name_spec(174), 6));
    } else if i == 174 {
        reveal_strlit("RIGHT_SHIFT");
        reveal_strlit("RIGHT_SHIFT_2");
        assert(key_name_spec(174) =~= "RIGHT_SHIFT"@);
        assert(key_name_spec(175) =~= "RIGHT_SHIFT_2"@);
        assert("RIGHT_SHIFT"@.take(11) =~= "RIGHT_SHIFT_2"@.take(11));
        assert(name_lt_at(key_name_spec(174), key_name_spec(175), 11));
    } else if i == 175 {
        reveal_strlit("RIGHT_SHIFT_2");
        reveal_strlit("RIGHT_WIN");
        assert(key_name_spec(175) =~= "RIGHT_SHIFT_2"@);
        assert(key_name_spec(176) =~= "RIGHT_WIN"@);
        assert("RIGHT_SHIFT_2"@.take(6) =~= "RIGHT_WIN"@.take(6));
        assert(name_lt_at(key_name_spec(175), key_name_spec(176), 6));
    } else if i == 176 {
        reveal_strlit("RIGHT_WIN");
        reveal_strlit("S");
        assert(key_name_spec(176) =~= "RIGHT_WIN"@);
        assert(key_name_spec(177) =~= "S"@);
        assert("RIGHT_WIN"@.take(0) =~= "S"@.take(0));
        assert(name_lt_at(key_name_spec(176), key_name_spec(177), 0));
    } else if i == 177 {
        reveal_strlit("S");
        reveal_strlit("SCROLL_LOCK");
        assert(key_name_spec(177) =~= "S"@);
        assert(key_name_spec(178) =~= "SCROLL_LOCK"@);
        assert("S"@.take(1) =~= "SCROLL_LOCK"@.take(1));
        assert(name_lt_at(key_name_spec(177), key_name_spec(178), 1));
    } else if i == 178 {
        reveal_strlit("SCROLL_LOCK");
        reveal_strlit("SELECT");
        assert(key_name_spec(178) =~= "SCROLL_LOCK"@);
        assert(key_name_spec(179) =~= "SELECT"@);
        assert("SCROLL_LOCK"@.take(1) =~= "SELECT"@.take(1));
        assert(name_lt_at(key_name_spec(178), key_name_spec(179), 1));
    } else if i == 179 {
        reveal_strlit("SELECT");
        reveal_strlit("SEMICOLON");
        assert(key_name_spec(179) =~= "SELECT"@);
        assert(key_name_spec(180) =~= "SEMICOLON"@);
        assert("SELECT"@.take(2) =~= "SEMICOLON"@.take(2));
        assert(name_lt_at(key_name_spec(179), key_name_spec(180), 2));
    }
}

proof fn lemma_names_sorted_180(i: int)
    requires
        180 <= i < 192,
    ensures
        name_lt(key_name_spec(i as u8), key_name_spec((i + 1) as u8)),
{
    if i == 180 {
        reveal_strlit("SEMICOLON");
        reveal_strlit("SEPARATOR");
        assert(key_name_spec(180) =~= "SEMICOLON"@);
        assert(key_name_spec(181) =~= "SEPARATOR"@);
        assert("SEMICOLON"@.take(2) =~= "SEPARATOR"@.take(2));
        assert(name_lt_at(key_name_spec(180), key_name_spec(181), 2));
    } else if i == 181 {
        reveal_strlit("SEPARATOR");
        reveal_strlit("SHIFT");
        assert(key_name_spec(181) =~= "SEPARATOR"@);
        assert(key_name_spec(182) =~= "SHIFT"@);
        assert("SEPARATOR"@.take(1) =~= "SHIFT"@.take(1));
        assert(name_lt_at(key_name_spec(181), key_name_spec(182), 1));
    } else if i == 182 {
        reveal_strlit("SHIFT");
        reveal_strlit("SLASH");
        assert(key_name_spec(182) =~= "SHIFT"@);
        assert(key_name_spec(183) =~= "SLASH"@);
        assert("SHIFT"@.take(1) =~= "SLASH"@.take(1));
        assert(name_lt_at(key_name_spec(182), key_name_spec(183), 1));
    } else if i == 183 {
        reveal_strlit("SLASH");
        reveal_strlit("SLEEP");
        assert(key_name_spec(183) =~= "SLASH"@);
        assert(key_name_spec(184) =~= "SLEEP"@);
        assert("SLASH"@.take(2) =~= "SLEEP"@.take(2));
        assert(name_lt_at(key_name_spec(183), key_name_spec(184), 2));
    } else if i == 184 {
        reveal_strlit("SLEEP");
        reveal_strlit("SPACE");
        assert(key_name_spec(184) =~= "SLEEP"@);
        assert(key_name_spec(185) =~= "SPACE"@);
        assert("SLEEP"@.take(1) =~= "SPACE"@.take(1));
        assert(name_lt_at(key_name_spec(184), key_name_spec(185), 1));
    } else if i == 185 {
        reveal_strlit("SPACE");
        reveal_strlit("SYS_REQ");
        assert(key_name_spec(185) =~= "SPACE"@);
        assert(key_name_spec(186) =~= "SYS_REQ"@);
        assert("SPACE"@.take(1) =~= "SYS_REQ"@.take(1));
        assert(name_lt_at(key_name_spec(185), key_name_spec(186), 1));
    } else if i == 186 {
        reveal_strlit("SYS_REQ");
        reveal_strlit("T");
        assert(key_name_spec(186) =~= "SYS_REQ"@);
        assert(key_name_spec(187) =~= "T"@);
        assert("SYS_REQ"@.take(0) =~= "T"@.take(0));
        assert(name_lt_at(key_name_spec(186), key_name_spec(187), 0));
    } else if i == 187 {
        reveal_strlit("T");
        reveal_strlit("TAB");
        assert(key_name_spec(187) =~= "T"@);
        assert(key_name_spec(188) =~= "TAB"@);
        assert("T"@.take(1) =~= "TAB"@.take(1));
        assert(name_lt_at(key_name_spec(187), key_name_spec(188), 1));
    } else if i == 188 {
        reveal_strlit("TAB");
        reveal_strlit("U");
        assert(key_name_spec(188) =~= "TAB"@);
        assert(key_name_spec(189) =~= "U"@);
        assert("TAB"@.take(0) =~= "U"@.take(0));
        assert(name_lt_at(key_name_spec(188), key_name_spec(189), 0));
    } else if i == 189 {
        reveal_strlit("U");
        reveal_strlit("UNASSIGNED");
        assert(key_name_spec(189) =~= "U"@);
        assert(key_name_spec(190) =~= "UNASSIGNED"@);
        assert("U"@.take(1) =~= "UNASSIGNED"@.take(1));
        assert(name_lt_at(key_name_spec(189), key_name_spec(190), 1));
    } else if i == 190 {
        reveal_strlit("UNASSIGNED");
        reveal_strlit("UP");
        assert(key_name_spec(190) =~= "UNASSIGNED"@);
        assert(key_name_spec(191) =~= "UP"@);
        assert("UNASSIGNED"@.take(1) =~= "UP"@.take(1));
        assert(name_lt_at(key_name_spec(190), key_name_spec(191), 1));
    } else if i == 191 {
        reveal_strlit("UP");
        reveal_strlit("V");
        assert(key_name_spec(191) =~= "UP"@);
        assert(key_name_spec(192) =~= "V"@);
        assert("UP"@.take(0) =~= "V"@.take(0));
        assert(name_lt_at(key_name_spec(191), key_name_spec(192), 0));
    }
}

proof fn lemma_names_sorted_192(i: int)
    requires
        192 <= i < 203,
    ensures
        name_lt(key_name_spec(i as u8), key_name_spec((i + 1) as u8)),
{
    if i == 192 {
        reveal_strlit("V");
        reveal_strlit("VOLUME_DOWN");
        assert(key_name_spec(192) =~= "V"@);
        assert(key_name_spec(193) =~= "VOLUME_DOWN"@);
        assert("V"@.take(1) =~= "VOLUME_DOWN"@.take(1));
        assert(name_lt_at(key_name_spec(192), key_name_spec(193), 1));
    } else if i == 193 {
        reveal_strlit("VOLUME_DOWN");
        reveal_strlit("VOLUME_MUTE");
        assert(key_name_spec(193) =~= "VOLUME_DOWN"@);
        assert(key_name_spec(194) =~= "VOLUME_MUTE"@);
        assert("VOLUME_DOWN"@.take(7) =~= "VOLUME_MUTE"@.take(7));
        assert(name_lt_at(key_name_spec(193), key_name_spec(194), 7));
    } else if i == 194 {
        reveal_strlit("VOLUME_MUTE");
        reveal_strlit("VOLUME_UP");
        assert(key_name_spec(194) =~= "VOLUME_MUTE"@);
        assert(key_name_spec(195) =~= "VOLUME_UP"@);
        assert("VOLUME_MUTE"@.take(7) =~= "VOLUME_UP"@.take(7));
        assert(name_lt_at(key_name_spec(194), key_name_spec(195), 7));
    } else if i == 195 {
        reveal_strlit("VOLUME_UP");
        reveal_strlit("W");
        assert(key_name_spec(195) =~= "VOLUME_UP"@);
        assert(key_name_spec(196) =~= "W"@);
        assert("VOLUME_UP"@.take(0) =~= "W"@.take(0));
        assert(name_lt_at(key_name_spec(195), key_name_spec(196), 0));
    } else if i == 196 {
        reveal_strlit("W");
        reveal_strlit("X");
        assert(key_name_spec(196) =~= "W"@);
        assert(key_name_spec(197) =~= "X"@);
        assert("W"@.take(0) =~= "X"@.take(0));
        assert(name_lt_at(key_name_spec(196), key_name_spec(197), 0));
    } else if i == 197 {
        reveal_strlit("X");
        reveal_strlit("XBUTTON1");
        assert(key_name_spec(197) =~= "X"@);
        assert(key_name_spec(198) =~= "XBUTTON1"@);
        assert("X"@.take(1) =~= "XBUTTON1"@.take(1));
        assert(name_lt_at(key_name_spec(197), key_name_spec(198), 1));
    } else if i == 198 {
        reveal_strlit("XBUTTON1");
        reveal_strlit("XBUTTON2");
        assert(key_name_spec(198) =~= "XBUTTON1"@);
        assert(key_name_spec(199) =~= "XBUTTON2"@);
        assert("XBUTTON1"@.take(7) =~= "XBUTTON2"@.take(7));
        assert(name_lt_at(key_name_spec(198), key_name_spec(199), 7));
    } else if i == 199 {
        reveal_strlit("XBUTTON2");
        reveal_strlit("Y");
        assert(key_name_spec(199) =~= "XBUTTON2"@);
        assert(key_name_spec(200) =~= "Y"@);
        assert("XBUTTON2"@.take(0) =~= "Y"@.take(0));
        assert(name_lt_at(key_name_spec(199), key_name_spec(200), 0));
    } else if i == 200 {
        reveal_strlit("Y");
        reveal_strlit("Z");
        assert(key_name_spec(200) =~= "Y"@);
        assert(key_name_spec(201) =~= "Z"@);
        assert("Y"@.take(0) =~= "Z"@.take(0));
        assert(name_lt_at(key_name_spec(200), key_name_spec(201), 0));
    } else if i == 201 {
        reveal_strlit("Z");
        reveal_strlit("ZOOM");
        assert(key_name_spec(201) =~= "Z"@);
        assert(key_name_spec(202) =~= "ZOOM"@);
        assert("Z"@.take(1) =~= "ZOOM"@.take(1));
        assert(name_lt_at(key_name_spec(201), key_name_spec(202), 1));
    } else if i == 202 {
        reveal_strlit("ZOOM");
        reveal_strlit("_");
        assert(key_name_spec(202) =~= "ZOOM"@);
        assert(key_name_spec(203) =~= "_"@);
        assert("ZOOM"@.take(0) =~= "_"@.take(0));
        assert(name_lt_at(key_name_spec(202), key_name_spec(203), 0));
    }
}

/// Each name of the key table comes before the next one.
proof fn lemma_names_sorted(i: int)
    requires
        0 <= i < MAX_KEYS - 1,
    ensures
        name_lt(key_name_spec(i as u8), key_name_spec((i + 1) as u8)),
{
    if i < 12 {
        lemma_names_sorted_0(i);
    } else if i < 24 {
        lemma_names_sorted_12(i);
    } else if i < 36 {
        lemma_names_sorted_24(i);
    } else if i < 48 {
        lemma_names_sorted_36(i);
    } else if i < 60 {
        lemma_names_sorted_48(i);
    } else if i < 72 {
        lemma_names_sorted_60(i);
    } else if i < 84 {
        lemma_names_sorted_72(i);
    } else if i < 96 {
        lemma_names_sorted_84(i);
    } else if i < 108 {
        lemma_names_sorted_96(i);
    } else if i < 120 {
        lemma_names_sorted_108(i);
    } else if i < 132 {
        lemma_names_sorted_120(i);
    } else if i < 144 {
        lemma_names_sorted_132(i);
    } else if i < 156 {
        lemma_names_sorted_144(i);
    } else if i < 168 {
        lemma_names_sorted_156(i);
    } else if i < 180 {
        lemma_names_sorted_168(i);
    } else if i < 192 {
        lemma_names_sorted_180(i);
    } else if i < 203 {
        lemma_names_sorted_192(i);
    }
}

proof fn lemma_names_ordered(i: int, j: int)
    requires
        0 <= i < j < MAX_KEYS,
    ensures
        name_lt(key_name_spec(i as u8), key_name_spec(j as u8)),
    decreases j - i,
{
    lemma_names_sorted(j - 1);
    if i < j - 1 {
        lemma_names_ordered(i, j - 1);
        lemma_name_lt_transitive(
            key_name_spec(i as u8),
            key_name_spec((j - 1) as u8),
            key_name_spec(j as u8),
        );
    }
}

/// No two positions of the key table hold the same name.
pub proof fn lemma_key_names_distinct(i: int, j: int)
    requires
        0 <= i < MAX_KEYS,
        0 <= j < MAX_KEYS,
        i != j,
    ensures
        key_name_spec(i as u8) != key_name_spec(j as u8),
{
    if i < j {
        lemma_names_ordered(i, j);
        lemma_name_lt_ne(key_name_spec(i as u8), key_name_spec(j as u8));
    } else {
        lemma_names_ordered(j, i);
        lemma_name_lt_ne(key_name_spec(j as u8), key_name_spec(i as u8));
    }
}

/// A number that tells keys apart.
pub open spec fn key_code(k: Key) -> int {
    k.vk_code * 512 + k.scan_code * 2 + (if k.is_ext_scan_code {
        1int
    } else {
        0int
    })
}

/// The position of the key table that holds the key with code `c`.
closed spec fn index_of_key_code(c: int) -> int {
    match c as u32 {
        31 => 0,
        3 => 1,
        24598 => 2,
        25092 => 3,
        25606 => 4,
        26120 => 5,
        26634 => 6,
        27148 => 7,
        27662 => 8,
        28176 => 9,
        28690 => 10,
        29204 => 11,
        169 => 12,
        33340 => 13,
        15360 => 14,
        113744 => 15,
        47803 => 16,
        125952 => 17,
        33888 => 18,
        112726 => 19,
        115884 => 20,
        4124 => 21,
        98386 => 22,
        1677 => 23,
        87 => 24,
        85205 => 25,
        87757 => 26,
        85715 => 27,
        88065 => 28,
        86223 => 29,
        87041 => 30,
        86737 => 31,
        34396 => 32,
        10356 => 33,
        96358 => 34,
        14336 => 35,
        126464 => 36,
        8762 => 37,
        34880 => 38,
        23719 => 39,
        97384 => 40,
        20641 => 41,
        35364 => 42,
        18079 => 43,
        6712 => 44,
        95770 => 45,
        127674 => 46,
        13826 => 47,
        22016 => 48,
        126976 => 49,
        35906 => 50,
        57462 => 51,
        62088 => 52,
        62638 => 53,
        63152 => 54,
        63688 => 55,
        64202 => 56,
        64716 => 57,
        65230 => 58,
        65744 => 59,
        66258 => 60,
        66772 => 61,
        57976 => 62,
        67286 => 63,
        67800 => 64,
        68314 => 65,
        68828 => 66,
        69356 => 67,
        58490 => 68,
        59004 => 69,
        59518 => 70,
        60032 => 71,
        60546 => 72,
        61060 => 73,
        61574 => 74,
        12288 => 75,
        88165 => 76,
        87243 => 77,
        93399 => 78,
        93763 => 79,
        92377 => 80,
        90163 => 81,
        91717 => 82,
        90657 => 83,
        89181 => 84,
        88641 => 85,
        89697 => 86,
        36420 => 87,
        36934 => 88,
        12800 => 89,
        24262 => 90,
        18575 => 91,
        37422 => 92,
        13312 => 93,
        11264 => 94,
        23205 => 95,
        37960 => 96,
        11776 => 97,
        38474 => 98,
        10752 => 99,
        38988 => 100,
        93185 => 101,
        93697 => 102,
        92161 => 103,
        92891 => 104,
        19095 => 105,
        84080 => 106,
        112180 => 107,
        512 => 108,
        83002 => 109,
        82004 => 110,
        46775 => 111,
        39524 => 112,
        90113 => 113,
        91649 => 114,
        90625 => 115,
        91209 => 116,
        9328 => 117,
        2048 => 118,
        96792 => 119,
        15872 => 120,
        40034 => 121,
        129024 => 122,
        14848 => 123,
        49316 => 124,
        49822 => 125,
        50336 => 126,
        50850 => 127,
        51350 => 128,
        51864 => 129,
        52378 => 130,
        52878 => 131,
        53392 => 132,
        53906 => 133,
        6296 => 134,
        23718 => 135,
        56939 => 136,
        56486 => 137,
        20640 => 138,
        18078 => 139,
        6713 => 140,
        18574 => 141,
        23204 => 142,
        19094 => 143,
        73867 => 144,
        9867 => 145,
        55956 => 146,
        54382 => 147,
        17570 => 148,
        17042 => 149,
        54940 => 150,
        20122 => 151,
        19600 => 152,
        40496 => 153,
        114176 => 154,
        130048 => 155,
        41010 => 156,
        129536 => 157,
        118272 => 158,
        17571 => 159,
        17043 => 160,
        9866 => 161,
        128000 => 162,
        157 => 163,
        21504 => 164,
        22639 => 165,
        117248 => 166,
        41504 => 167,
        42022 => 168,
        20123 => 169,
        84593 => 170,
        113206 => 171,
        1024 => 172,
        83515 => 173,
        82541 => 174,
        109 => 175,
        47289 => 176,
        42558 => 177,
        74380 => 178,
        20992 => 179,
        95310 => 180,
        55296 => 181,
        8276 => 182,
        97898 => 183,
        48831 => 184,
        16498 => 185,
        22696 => 186,
        43048 => 187,
        4638 => 188,
        43564 => 189,
        0 => 190,
        19601 => 191,
        44126 => 192,
        89089 => 193,
        88577 => 194,
        89601 => 195,
        44578 => 196,
        45146 => 197,
        2560 => 198,
        3072 => 199,
        45610 => 200,
        46168 => 201,
        128708 => 202,
        115 => 203,
        _ => -1,
    }
}

proof fn lemma_key_code_index_0(i: int)
    requires
        0 <= i < 12,
    ensures
        index_of_key_code(key_code(key_spec(i as u8))) == i,
{
    if i == 0 {
        assert(key_code(key_spec(0)) == 31);
    } else if i == 1 {
        assert(key_code(key_spec(1)) == 3);
    } else if i == 2 {
        assert(key_code(key_spec(2)) == 24598);
    } else if i == 3 {
        assert(key_code(key_spec(3)) == 25092);
    } else if i == 4 {
        assert(key_code(key_spec(4)) == 25606);
    } else if i == 5 {
        assert(key_code(key_spec(5)) == 26120);
    } else if i == 6 {
        assert(key_code(key_spec(6)) == 26634);
    } else if i == 7 {
        assert(key_code(key_spec(7)) == 27148);
    } else if i == 8 {
        assert(key_code(key_spec(8)) == 27662);
    } else if i == 9 {
        assert(key_code(key_spec(9)) == 28176);
    } else if i == 10 {
        assert(key_code(key_spec(10)) == 28690);
    } else if i == 11 {
        assert(key_code(key_spec(11)) == 29204);
    }
}

proof fn lemma_key_code_index_12(i: int)
    requires
        12 <= i < 24,
    ensures
        index_of_key_code(key_code(key_spec(i as u8))) == i,
{
    if i == 12 {
        assert(key_code(key_spec(12)) == 169);
    } else if i == 13 {
        assert(key_code(key_spec(13)) == 33340);
    } else if i == 14 {
        assert(key_code(key_spec(14)) == 15360);
    } else if i == 15 {
        assert(key_code(key_spec(15)) == 113744);
    } else if i == 16 {
        assert(key_code(key_spec(16)) == 47803);
    } else if i == 17 {
        assert(key_code(key_spec(17)) == 125952);
    } else if i == 18 {
        assert(key_code(key_spec(18)) == 33888);
    } else if i == 19 {
        assert(key_code(key_spec(19)) == 112726);
    } else if i == 20 {
        assert(key_code(key_spec(20)) == 115884);
    } else if i == 21 {
        assert(key_code(key_spec(21)) == 4124);
    } else if i == 22 {
        assert(key_code(key_spec(22)) == 98386);
    } else if i == 23 {
        assert(key_code(key_spec(23)) == 1677);
    }
}

proof fn lemma_key_code_index_24(i: int)
    requires
        24 <= i < 36,
    ensures
        index_of_key_code(key_code(key_spec(i as u8))) == i,
{
    if i == 24 {
        assert(key_code(key_spec(24)) == 87);
    } else if i == 25 {
        assert(key_code(key_spec(25)) == 85205);
    } else if i == 26 {
        assert(key_code(key_spec(26)) == 87757);
    } else if i == 27 {
        assert(key_code(key_spec(27)) == 85715);
    } else if i == 28 {
        assert(key_code(key_spec(28)) == 88065);
    } else if i == 29 {
        assert(key_code(key_spec(29)) == 86223);
    } else if i == 30 {
        assert(key_code(key_spec(30)) == 87041);
    } else if i == 31 {
        assert(key_code(key_spec(31)) == 86737);
    } else if i == 32 {
        assert(key_code(key_spec(32)) == 34396);
    } else if i == 33 {
        assert(key_code(key_spec(33)) == 10356);
    } else if i == 34 {
        assert(key_code(key_spec(34)) == 96358);
    } else if i == 35 {
        assert(key_code(key_spec(35)) == 14336);
    }
}

proof fn lemma_key_code_index_36(i: int)
    requires
        36 <= i < 48,
    ensures
        index_of_key_code(key_code(key_spec(i as u8))) == i,
{
    if i == 36 {
        assert(key_code(key_spec(36)) == 126464);
    } else if i == 37 {
        assert(key_code(key_spec(37)) == 8762);
    } else if i == 38 {
        assert(key_code(key_spec(38)) == 34880);
    } else if i == 39 {
        assert(key_code(key_spec(39)) == 23719);
    } else if i == 40 {
        assert(key_code(key_spec(40)) == 97384);
    } else if i == 41 {
        assert(key_code(key_spec(41)) == 20641);
    } else if i == 42 {
        assert(key_code(key_spec(42)) == 35364);
    } else if i == 43 {
        assert(key_code(key_spec(43)) == 18079);
    } else if i == 44 {
        assert(key_code(key_spec(44)) == 6712);
    } else if i == 45 {
        assert(key_code(key_spec(45)) == 95770);
    } else if i == 46 {
        assert(key_code(key_spec(46)) == 127674);
    } else if i == 47 {
        assert(key_code(key_spec(47)) == 13826);
    }
}

proof fn lemma_key_code_index_48(i: int)
    requires
        48 <= i < 60,
    ensures
        index_of_key_code(key_code(key_spec(i as u8))) == i,
{
    if i == 48 {
        assert(key_code(key_spec(48)) == 22016);
    } else if i == 49 {
        assert(key_code(key_spec(49)) == 126976);
    } else if i == 50 {
        assert(key_code(key_spec(50)) == 35906);
    } else if i == 51 {
        assert(key_code(key_spec(51)) == 57462);
    } else if i == 52 {
        assert(key_code(key_spec(52)) == 62088);
    } else if i == 53 {
        assert(key_code(key_spec(53)) == 62638);
    } else if i == 54 {
        assert(key_code(key_spec(54)) == 63152);
    } else if i == 55 {
        assert(key_code(key_spec(55)) == 63688);
    } else if i == 56 {
        assert(key_code(key_spec(56)) == 64202);
    } else if i == 57 {
        assert(key_code(key_spec(57)) == 64716);
    } else if i == 58 {
        assert(key_code(key_spec(58)) == 65230);
    } else if i == 59 {
        assert(key_code(key_spec(59)) == 65744);
    }
}

proof fn lemma_key_code_index_60(i: int)
    requires
        60 <= i < 72,
    ensures
        index_of_key_code(key_code(key_spec(i as u8))) == i,
{
    if i == 60 {
        assert(key_code(key_spec(60)) == 66258);
    } else if i == 61 {
        assert(key_code(key_spec(61)) == 66772);
    } else if i == 62 {
        assert(key_code(key_spec(62)) == 57976);
    } else if i == 63 {
        assert(key_code(key_spec(63)) == 67286);
    } else if i == 64 {
        assert(key_code(key_spec(64)) == 67800);
    } else if i == 65 {
        assert(key_code(key_spec(65)) == 68314);
    } else if i == 66 {
        assert(key_code(key_spec(66)) == 68828);
    } else if i == 67 {
        assert(key_code(key_spec(67)) == 69356);
    } else if i == 68 {
        assert(key_code(key_spec(68)) == 58490);
    } else if i == 69 {
        assert(key_code(key_spec(69)) == 59004);
    } else if i == 70 {
        assert(key_code(key_spec(70)) == 59518);
    } else if i == 71 {
        assert(key_code(key_spec(71)) == 60032);
    }
}

proof fn lemma_key_code_index_72(i: int)
    requires
        72 <= i < 84,
    ensures
        index_of_key_code(key_code(key_spec(i as u8))) == i,
{
    if i == 72 {
        assert(key_code(key_spec(72)) == 60546);
    } else if i == 73 {
        assert(key_code(key_spec(73)) == 61060);
    } else if i == 74 {
        assert(key_code(key_spec(74)) == 61574);
    } else if i == 75 {
        assert(key_code(key_spec(75)) == 12288);
    } else if i == 76 {
        assert(key_code(key_spec(76)) == 88165);
    } else if i == 77 {
        assert(key_code(key_spec(77)) == 87243);
    } else if i == 78 {
        assert(key_code(key_spec(78)) == 93399);
    } else if i == 79 {
        assert(key_code(key_spec(79)) == 93763);
    } else if i == 80 {
        assert(key_code(key_spec(80)) == 92377);
    } else if i == 81 {
        assert(key_code(key_spec(81)) == 90163);
    } else if i == 82 {
        assert(key_code(key_spec(82)) == 91717);
    } else if i == 83 {
        assert(key_code(key_spec(83)) == 90657);
    }
}

proof fn lemma_key_code_index_84(i: int)
    requires
        84 <= i < 96,
    ensures
        index_of_key_code(key_code(key_spec(i as u8))) == i,
{
    if i == 84 {
        assert(key_code(key_spec(84)) == 89181);
    } else if i == 85 {
        assert(key_code(key_spec(85)) == 88641);
    } else if i == 86 {
        assert(key_code(key_spec(86)) == 89697);
    } else if i == 87 {
        assert(key_code(key_spec(87)) == 36420);
    } else if i == 88 {
        assert(key_code(key_spec(88)) == 36934);
    } else if i == 89 {
        assert(key_code(key_spec(89)) == 12800);
    } else if i == 90 {
        assert(key_code(key_spec(90)) == 24262);
    } else if i == 91 {
        assert(key_code(key_spec(91)) == 18575);
    } else if i == 92 {
        assert(key_code(key_spec(92)) == 37422);
    } else if i == 93 {
        assert(key_code(key_spec(93)) == 13312);
    } else if i == 94 {
        assert(key_code(key_spec(94)) == 11264);
    } else if i == 95 {
        assert(key_code(key_spec(95)) == 23205);
    }
}

proof fn lemma_key_code_index_96(i: int)
    requires
        96 <= i < 108,
    ensures
        index_of_key_code(key_code(key_spec(i as u8))) == i,
{
    if i == 96 {
        assert(key_code(key_spec(96)) == 37960);
    } else if i == 97 {
        assert(key_code(key_spec(97)) == 11776);
    } else if i == 98 {
        assert(key_code(key_spec(98)) == 38474);
    } else if i == 99 {
        assert(key_code(key_spec(99)) == 10752);
    } else if i == 100 {
        assert(key_code(key_spec(100)) == 38988);
    } else if i == 101 {
        assert(key_code(key_spec(101)) == 93185);
    } else if i == 102 {
        assert(key_code(key_spec(102)) == 93697);
    } else if i == 103 {
        assert(key_code(key_spec(103)) == 92161);
    } else if i == 104 {
        assert(key_code(key_spec(104)) == 92891);
    } else if i == 105 {
        assert(key_code(key_spec(105)) == 19095);
    } else if i == 106 {
        assert(key_code(key_spec(106)) == 84080);
    } else if i == 107 {
        assert(key_code(key_spec(107)) == 112180);
    }
}

proof fn lemma_key_code_index_108(i: int)
    requires
        108 <= i < 120,
    ensures
        index_of_key_code(key_code(key_spec(i as u8))) == i,
{
    if i == 108 {
        assert(key_code(key_spec(108)) == 512);
    } else if i == 109 {
        assert(key_code(key_spec(109)) == 83002);
    } else if i == 110 {
        assert(key_code(key_spec(110)) == 82004);
    } else if i == 111 {
        assert(key_code(key_spec(111)) == 46775);
    } else if i == 112 {
        assert(key_code(key_spec(112)) == 39524);
    } else if i == 113 {
        assert(key_code(key_spec(113)) == 90113);
    } else if i == 114 {
        assert(key_code(key_spec(114)) == 91649);
    } else if i == 115 {
        assert(key_code(key_spec(115)) == 90625);
    } else if i == 116 {
        assert(key_code(key_spec(116)) == 91209);
    } else if i == 117 {
        assert(key_code(key_spec(117)) == 9328);
    } else if i == 118 {
        assert(key_code(key_spec(118)) == 2048);
    } else if i == 119 {
        assert(key_code(key_spec(119)) == 96792);
    }
}

proof fn lemma_key_code_index_120(i: int)
    requires
        120 <= i < 132,
    ensures
        index_of_key_code(key_code(key_spec(i as u8))) == i,
{
    if i == 120 {
        assert(key_code(key_spec(120)) == 15872);
    } else if i == 121 {
        assert(key_code(key_spec(121)) == 40034);
    } else if i == 122 {
        assert(key_code(key_spec(122)) == 129024);
    } else if i == 123 {
        assert(key_code(key_spec(123)) == 14848);
    } else if i == 124 {
        assert(key_code(key_spec(124)) == 49316);
    } else if i == 125 {
        assert(key_code(key_spec(125)) == 49822);
    } else if i == 126 {
        assert(key_code(key_spec(126)) == 50336);
    } else if i == 127 {
        assert(key_code(key_spec(127)) == 50850);
    } else if i == 128 {
        assert(key_code(key_spec(128)) == 51350);
    } else if i == 129 {
        assert(key_code(key_spec(129)) == 51864);
    } else if i == 130 {
        assert(key_code(key_spec(130)) == 52378);
    } else if i == 131 {
        assert(key_code(key_spec(131)) == 52878);
    }
}

proof fn lemma_key_code_index_132(i: int)
    requires
        132 <= i < 144,
    ensures
        index_of_key_code(key_code(key_spec(i as u8))) == i,
{
    if i == 132 {
        assert(key_code(key_spec(132)) == 53392);
    } else if i == 133 {
        assert(key_code(key_spec(133)) == 53906);
    } else if i == 134 {
        assert(key_code(key_spec(134)) == 6296);
    } else if i == 135 {
        assert(key_code(key_spec(135)) == 23718);
    } else if i == 136 {
        assert(key_code(key_spec(136)) == 56939);
    } else if i == 137 {
        assert(key_code(key_spec(137)) == 56486);
    } else if i == 138 {
        assert(key_code(key_spec(138)) == 20640);
    } else if i == 139 {
        assert(key_code(key_spec(139)) == 18078);
    } else if i == 140 {
        assert(key_code(key_spec(140)) == 6713);
    } else if i == 141 {
        assert(key_code(key_spec(141)) == 18574);
    } else if i == 142 {
        assert(key_code(key_spec(142)) == 23204);
    } else if i == 143 {
        assert(key_code(key_spec(143)) == 19094);
    }
}

proof fn lemma_key_code_index_144(i: int)
    requires
        144 <= i < 156,
    ensures
        index_of_key_code(key_code(key_spec(i as u8))) == i,
{
    if i == 144 {
        assert(key_code(key_spec(144)) == 73867);
    } else if i == 145 {
        assert(key_code(key_spec(145)) == 9867);
    } else if i == 146 {
        assert(key_code(key_spec(146)) == 55956);
    } else if i == 147 {
        assert(key_code(key_spec(147)) == 54382);
    } else if i == 148 {
        assert(key_code(key_spec(148)) == 17570);
    } else if i == 149 {
        assert(key_code(key_spec(149)) == 17042);
    } else if i == 150 {
        assert(key_code(key_spec(150)) == 54940);
    } else if i == 151 {
        assert(key_code(key_spec(151)) == 20122);
    } else if i == 152 {
        assert(key_code(key_spec(152)) == 19600);
    } else if i == 153 {
        assert(key_code(key_spec(153)) == 40496);
    } else if i == 154 {
        assert(key_code(key_spec(154)) == 114176);
    } else if i == 155 {
        assert(key_code(key_spec(155)) == 130048);
    }
}

proof fn lemma_key_code_index_156(i: int)
    requires
        156 <= i < 168,
    ensures
        index_of_key_code(key_code(key_spec(i as u8))) == i,
{
    if i == 156 {
        assert(key_code(key_spec(156)) == 41010);
    } else if i == 157 {
        assert(key_code(key_spec(157)) == 129536);
    } else if i == 158 {
        assert(key_code(key_spec(158)) == 118272);
    } else if i == 159 {
        assert(key_code(key_spec(159)) == 17571);
    } else if i == 160 {
        assert(key_code(key_spec(160)) == 17043);
    } else if i == 161 {
        assert(key_code(key_spec(161)) == 9866);
    } else if i == 162 {
        assert(key_code(key_spec(162)) == 128000);
    } else if i == 163 {
        assert(key_code(key_spec(163)) == 157);
    } else if i == 164 {
        assert(key_code(key_spec(164)) == 21504);
    } else if i == 165 {
        assert(key_code(key_spec(165)) == 22639);
    } else if i == 166 {
        assert(key_code(key_spec(166)) == 117248);
    } else if i == 167 {
        assert(key_code(key_spec(167)) == 41504);
    }
}

proof fn lemma_key_code_index_168(i: int)
    requires
        168 <= i < 180,
    ensures
        index_of_key_code(key_code(key_spec(i as u8))) == i,
{
    if i == 168 {
        assert(key_code(key_spec(168)) == 42022);
    } else if i == 169 {
        assert(key_code(key_spec(169)) == 20123);
    } else if i == 170 {
        assert(key_code(key_spec(170)) == 84593);
    } else if i == 171 {
        assert(key_code(key_spec(171)) == 113206);
    } else if i == 172 {
        assert(key_code(key_spec(172)) == 1024);
    } else if i == 173 {
        assert(key_code(key_spec(173)) == 83515);
    } else if i == 174 {
        assert(key_code(key_spec(174)) == 82541);
    } else if i == 175 {
        assert(key_code(key_spec(175)) == 109);
    } else if i == 176 {
        assert(key_code(key_spec(176)) == 47289);
    } else if i == 177 {
        assert(key_code(key_spec(177)) == 42558);
    } else if i == 178 {
        assert(key_code(key_spec(178)) == 74380);
    } else if i == 179 {
        assert(key_code(key_spec(179)) == 20992);
    }
}

proof fn lemma_key_code_index_180(i: int)
    requires
        180 <= i < 192,
    ensures
        index_of_key_code(key_code(key_spec(i as u8))) == i,
{
    if i == 180 {
        assert(key_code(key_spec(180)) == 95310);
    } else if i == 181 {
        assert(key_code(key_spec(181)) == 55296);
    } else if i == 182 {
        assert(key_code(key_spec(182)) == 8276);
    } else if i == 183 {
        assert(key_code(key_spec(183)) == 97898);
    } else if i == 184 {
        assert(key_code(key_spec(184)) == 48831);
    } else if i == 185 {
        assert(key_code(key_spec(185)) == 16498);
    } else if i == 186 {
        assert(key_code(key_spec(186)) == 22696);
    } else if i == 187 {
        assert(key_code(key_spec(187)) == 43048);
    } else if i == 188 {
        assert(key_code(key_spec(188)) == 4638);
    } else if i == 189 {
        assert(key_code(key_spec(189)) == 43564);
    } else if i == 190 {
        assert(key_code(key_spec(190)) == 0);
    } else if i == 191 {
        assert(key_code(key_spec(191)) == 19601);
    }
}

proof fn lemma_key_code_index_192(i: int)
    requires
        192 <= i < 204,
    ensures
        index_of_key_code(key_code(key_spec(i as u8))) == i,
{
    if i == 192 {
        assert(key_code(key_spec(192)) == 44126);
    } else if i == 193 {
        assert(key_code(key_spec(193)) == 89089);
    } else if i == 194 {
        assert(key_code(key_spec(194)) == 88577);
    } else if i == 195 {
        assert(key_code(key_spec(195)) == 89601);
    } else if i == 196 {
        assert(key_code(key_spec(196)) == 44578);
    } else if i == 197 {
        assert(key_code(key_spec(197)) == 45146);
    } else if i == 198 {
        assert(key_code(key_spec(198)) == 2560);
    } else if i == 199 {
        assert(key_code(key_spec(199)) == 3072);
    } else if i == 200 {
        assert(key_code(key_spec(200)) == 45610);
    } else if i == 201 {
        assert(key_code(key_spec(201)) == 46168);
    } else if i == 202 {
        assert(key_code(key_spec(202)) == 128708);
    } else if i == 203 {
        assert(key_code(key_spec(203)) == 115);
    }
}

/// No two positions of the key table hold the same key.
pub proof fn lemma_keys_distinct(i: int, j: int)
    requires
        0 <= i < MAX_KEYS,
        0 <= j < MAX_KEYS,
        i != j,
    ensures
        key_spec(i as u8) != key_spec(j as u8),
{
    lemma_key_code_index(i);
    lemma_key_code_index(j);
}

proof fn lemma_key_code_index(i: int)
    requires
        0 <= i < MAX_KEYS,
    ensures
        index_of_key_code(key_code(key_spec(i as u8))) == i,
{
    if i < 12 {
        lemma_key_code_index_0(i);
    } else if i < 24 {
        lemma_key_code_index_12(i);
    } else if i < 36 {
        lemma_key_code_index_24(i);
    } else if i < 48 {
        lemma_key_code_index_36(i);
    } else if i < 60 {
        lemma_key_code_index_48(i);
    } else if i < 72 {
        lemma_key_code_index_60(i);
    } else if i < 84 {
        lemma_key_code_index_72(i);
    } else if i < 96 {
        lemma_key_code_index_84(i);
    } else if i < 108 {
        lemma_key_code_index_96(i);
    } else if i < 120 {
        lemma_key_code_index_108(i);
    } else if i < 132 {
        lemma_key_code_index_120(i);
    } else if i < 144 {
        lemma_key_code_index_132(i);
    } else if i < 156 {
        lemma_key_code_index_144(i);
    } else if i < 168 {
        lemma_key_code_index_156(i);
    } else if i < 180 {
        lemma_key_code_index_168(i);
    } else if i < 192 {
        lemma_key_code_index_180(i);
    } else if i < 204 {
        lemma_key_code_index_192(i);
    }
}

/// Every key of the table has a scan code below the number of scan codes.
pub proof fn lemma_key_scan_codes(i: int)
    requires
        0 <= i < MAX_KEYS,
    ensures
        (key_spec(i as u8).scan_code as usize) < MAX_SCAN_CODE,
{
}

/// The eight modifier keys in the key table: where each stands, with its name and its
/// virtual key code.
pub proof fn lemma_modifier_keys_in_table()
    ensures
        key_name_spec(110) == modifier_name(0) && key_spec(110).vk_code == 0xA0,
        key_name_spec(174) == modifier_name(1) && key_spec(174).vk_code == 0xA1,
        key_name_spec(109) == modifier_name(2) && key_spec(109).vk_code == 0xA2,
        key_name_spec(173) == modifier_name(3) && key_spec(173).vk_code == 0xA3,
        key_name_spec(106) == modifier_name(4) && key_spec(106).vk_code == 0xA4,
        key_name_spec(170) == modifier_name(5) && key_spec(170).vk_code == 0xA5,
        key_name_spec(111) == modifier_name(6) && key_spec(111).vk_code == 0x5B,
        key_name_spec(176) == modifier_name(7) && key_spec(176).vk_code == 0x5C,
{
    reveal_strlit("LEFT_SHIFT");
    reveal_strlit("RIGHT_SHIFT");
    reveal_strlit("LEFT_CTRL");
    reveal_strlit("RIGHT_CTRL");
    reveal_strlit("LEFT_ALT");
    reveal_strlit("RIGHT_ALT");
    reveal_strlit("LEFT_WIN");
    reveal_strlit("RIGHT_WIN");
    assert(key_name_spec(110) =~= modifier_name(0));
    assert(key_name_spec(174) =~= modifier_name(1));
    assert(key_name_spec(109) =~= modifier_name(2));
    assert(key_name_spec(173) =~= modifier_name(3));
    assert(key_name_spec(106) =~= modifier_name(4));
    assert(key_name_spec(170) =~= modifier_name(5));
    assert(key_name_spec(111) =~= modifier_name(6));
    assert(key_name_spec(176) =~= modifier_name(7));
}

} // verus!

//! The keyboard and media-key reports of a HID keyboard: which report
//! follows from pressing and releasing keys.

use vstd::prelude::*;
use vstd::string::StringSliceAdditionalSpecFns;

verus! {

/// The first of the eight key codes that stand for the modifier keys.
pub const MODIFIER_BASE: u8 = 128;

/// The first of the key codes that stand for a usage: the code less this
/// base is the usage.
pub const USAGE_BASE: u8 = 136;

/// The key code of the left control key.
pub const KEY_LEFT_CTRL: u8 = 0x80;

/// The key code of the left shift key.
pub const KEY_LEFT_SHIFT: u8 = 0x81;

/// The key code of the capital letter M.
pub const KEY_M: u8 = 0x4d;

/// The media key that turns the volume up.
pub const KEY_MEDIA_VOLUME_UP: [u8; 2] = [32, 0];

/// The media key that turns the volume down.
pub const KEY_MEDIA_VOLUME_DOWN: [u8; 2] = [64, 0];

/// The bit of the modifier byte that stands for the left shift key.
pub const MODIFIER_LEFT_SHIFT: u8 = 0x02;

/// Marks the entries of `ASCII_MAP` that are typed with shift.
const SHIFT: u8 = 0x80;

/// For each ASCII character the usage of the key that types it on a US
/// keyboard, with `SHIFT` added where shift is held; zero where no key
/// types it.
const ASCII_MAP: [u8; 128] = [
    0x00, 0x00, 0x00, 0x00, 0x00, 0x00, 0x00, 0x00,  // . . . . . . . .
    0x2a, 0x2b, 0x28, 0x00, 0x00, 0x00, 0x00, 0x00,  // BS TAB LF . . . . .
    0x00, 0x00, 0x00, 0x00, 0x00, 0x00, 0x00, 0x00,  // . . . . . . . .
    0x00, 0x00, 0x00, 0x00, 0x00, 0x00, 0x00, 0x00,  // . . . . . . . .
    0x2c, 0x1e + SHIFT, 0x34 + SHIFT, 0x20 + SHIFT, 0x21 + SHIFT, 0x22 + SHIFT, 0x24 + SHIFT, 0x34,  // SP ! " # $ % & '
    0x26 + SHIFT, 0x27 + SHIFT, 0x25 + SHIFT, 0x2e + SHIFT, 0x36, 0x2d, 0x37, 0x38,  // ( ) * + , - . /
    0x27, 0x1e, 0x1f, 0x20, 0x21, 0x22, 0x23, 0x24,  // 0 1 2 3 4 5 6 7
    0x25, 0x26, 0x33 + SHIFT, 0x33, 0x36 + SHIFT, 0x2e, 0x37 + SHIFT, 0x38 + SHIFT,  // 8 9 : ; < = > ?
    0x1f + SHIFT, 0x04 + SHIFT, 0x05 + SHIFT, 0x06 + SHIFT, 0x07 + SHIFT, 0x08 + SHIFT, 0x09 + SHIFT, 0x0a + SHIFT,  // @ A B C D E F G
    0x0b + SHIFT, 0x0c + SHIFT, 0x0d + SHIFT, 0x0e + SHIFT, 0x0f + SHIFT, 0x10 + SHIFT, 0x11 + SHIFT, 0x12 + SHIFT,  // H I J K L M N O
    0x13 + SHIFT, 0x14 + SHIFT, 0x15 + SHIFT, 0x16 + SHIFT, 0x17 + SHIFT, 0x18 + SHIFT, 0x19 + SHIFT, 0x1a + SHIFT,  // P Q R S T U V W
    0x1b + SHIFT, 0x1c + SHIFT, 0x1d + SHIFT, 0x2f, 0x31, 0x30, 0x23 + SHIFT, 0x2d + SHIFT,  // X Y Z [ \ ] ^ _
    0x35, 0x04, 0x05, 0x06, 0x07, 0x08, 0x09, 0x0a,  // ` a b c d e f g
    0x0b, 0x0c, 0x0d, 0x0e, 0x0f, 0x10, 0x11, 0x12,  // h i j k l m n o
    0x13, 0x14, 0x15, 0x16, 0x17, 0x18, 0x19, 0x1a,  // p q r s t u v w
    0x1b, 0x1c, 0x1d, 0x2f + SHIFT, 0x31 + SHIFT, 0x30 + SHIFT, 0x35 + SHIFT, 0x00,  // x y z { | } ~ DEL
];

/// A key of the keyboard, and whether shift is held with it.
#[derive(Clone, Copy, Debug, PartialEq, Eq, Structural)]
pub struct Stroke {
    /// The usage of the key.
    pub usage: u8,
    /// Whether shift is held.
    pub shift: bool,
}

/// The key alone.
pub open spec fn plain(usage: u8) -> Option<Stroke> {
    Some(Stroke { usage, shift: false })
}

/// The key with shift.
pub open spec fn shifted(usage: u8) -> Option<Stroke> {
    Some(Stroke { usage, shift: true })
}

/// What types the ASCII character `c` on a US keyboard, if anything does.
/// The letters are the keys from 0x04 on, the digits one to nine those from
/// 0x1e on; control characters other than backspace, tab and line feed are
/// not typed, nor is anything above ASCII.
pub open spec fn stroke_of(c: u8) -> Option<Stroke> {
    if 0x61 <= c <= 0x7a {
        plain((c - 0x61 + 0x04) as u8)
    } else if 0x41 <= c <= 0x5a {
        shifted((c - 0x41 + 0x04) as u8)
    } else if 0x31 <= c <= 0x39 {
        plain((c - 0x31 + 0x1e) as u8)
    } else if c == 0x30 {
        plain(0x27)
    } else if c == 0x08 {
        plain(0x2a)
    } else if c == 0x09 {
        plain(0x2b)
    } else if c == 0x0a {
        plain(0x28)
    } else if c == 0x20 {
        plain(0x2c)
    } else if c == 0x21 {
        shifted(0x1e)
    } else if c == 0x40 {
        shifted(0x1f)
    } else if c == 0x23 {
        shifted(0x20)
    } else if c == 0x24 {
        shifted(0x21)
    } else if c == 0x25 {
        shifted(0x22)
    } else if c == 0x5e {
        shifted(0x23)
    } else if c == 0x26 {
        shifted(0x24)
    } else if c == 0x2a {
        shifted(0x25)
    } else if c == 0x28 {
        shifted(0x26)
    } else if c == 0x29 {
        shifted(0x27)
    } else if c == 0x2d {
        plain(0x2d)
    } else if c == 0x5f {
        shifted(0x2d)
    } else if c == 0x3d {
        plain(0x2e)
    } else if c == 0x2b {
        shifted(0x2e)
    } else if c == 0x5b {
        plain(0x2f)
    } else if c == 0x7b {
        shifted(0x2f)
    } else if c == 0x5d {
        plain(0x30)
    } else if c == 0x7d {
        shifted(0x30)
    } else if c == 0x5c {
        plain(0x31)
    } else if c == 0x7c {
        shifted(0x31)
    } else if c == 0x3b {
        plain(0x33)
    } else if c == 0x3a {
        shifted(0x33)
    } else if c == 0x27 {
        plain(0x34)
    } else if c == 0x22 {
        shifted(0x34)
    } else if c == 0x60 {
        plain(0x35)
    } else if c == 0x7e {
        shifted(0x35)
    } else if c == 0x2c {
        plain(0x36)
    } else if c == 0x3c {
        shifted(0x36)
    } else if c == 0x2e {
        plain(0x37)
    } else if c == 0x3e {
        shifted(0x37)
    } else if c == 0x2f {
        plain(0x38)
    } else if c == 0x3f {
        shifted(0x38)
    } else {
        None
    }
}

/// Looks up what types the ASCII character `c`.
pub fn stroke(c: u8) -> (found: Option<Stroke>)
    ensures
        found == stroke_of(c),
{
    if c >= 128 {
        return None;
    }
    let entry = ASCII_MAP[c as usize];
    assert(entry & 0x80 == 0x80 <==> entry >= 0x80) by (bit_vector);
    assert(entry >= 0x80 ==> entry & 0x7f == (entry - 0x80) as u8) by (bit_vector);
    if entry == 0 {
        None
    } else if entry & SHIFT == SHIFT {
        Some(Stroke { usage: entry & 0x7f, shift: true })
    } else {
        Some(Stroke { usage: entry, shift: false })
    }
}

/// What pressing a key adds to the keyboard report.
pub struct Effect {
    /// The modifier bits that are set.
    pub modifiers: u8,
    /// The usage that takes a key slot; zero for none.
    pub usage: u8,
}

/// What pressing the key with code `k` adds to the report. A code from
/// `USAGE_BASE` on is a usage. A code from `MODIFIER_BASE` on is a
/// modifier: the bit of the modifier byte that the code counts up to from
/// that base. A code below is an ASCII character: the key that types it,
/// and left shift where it is typed with shift. A character that no key
/// types has no effect at all.
pub open spec fn effect_of(k: u8) -> Option<Effect> {
    if k >= USAGE_BASE {
        Some(Effect { modifiers: 0, usage: (k - USAGE_BASE) as u8 })
    } else if k >= MODIFIER_BASE {
        Some(Effect { modifiers: 1u8 << ((k - MODIFIER_BASE) as u8), usage: 0 })
    } else {
        match stroke_of(k) {
            Some(stroke) => Some(
                Effect {
                    modifiers: if stroke.shift {
                        MODIFIER_LEFT_SHIFT
                    } else {
                        0
                    },
                    usage: stroke.usage,
                },
            ),
            None => None,
        }
    }
}

/// The key slots after `usage` is pressed: unchanged if a slot holds it
/// already, else with `usage` in the first empty slot, if there is one.
pub open spec fn with_key(keys: Seq<u8>, usage: u8) -> Seq<u8> {
    if keys.contains(usage) {
        keys
    } else {
        match keys.index_of_first(0u8) {
            Some(slot) => keys.update(slot, usage),
            None => keys,
        }
    }
}

/// A modifier takes no key slot: pressing the usage zero leaves the slots as
/// they are. A usage that is held already is not held twice.
pub proof fn lemma_with_key_holds_once(keys: Seq<u8>, usage: u8)
    ensures
        with_key(keys, 0) == keys,
        with_key(with_key(keys, usage), usage) == with_key(keys, usage),
        with_key(keys, usage).len() == keys.len(),
{
    keys.index_of_first_ensures(0u8);
    if usage != 0 && !keys.contains(usage) {
        if let Some(slot) = keys.index_of_first(0u8) {
            assert(keys.update(slot, usage)[slot] == usage);
        }
    }
}

/// The views of the reports in a list.
pub open spec fn report_views(reports: Seq<[u8; 8]>) -> Seq<Seq<u8>> {
    Seq::new(reports.len(), |i: int| reports[i]@)
}

/// What a keyboard is, mathematically.
pub struct Keyboard {
    /// The modifier byte of the keyboard report.
    pub modifiers: u8,
    /// The six key slots of the keyboard report.
    pub keys: Seq<u8>,
    /// The two bytes of the media-key report.
    pub media: Seq<u8>,
}

impl Keyboard {
    /// The keyboard with no key down.
    pub open spec fn initial() -> Keyboard {
        Keyboard { modifiers: 0, keys: seq![0u8, 0u8, 0u8, 0u8, 0u8, 0u8], media: seq![0u8, 0u8] }
    }

    /// The keyboard after the key with code `k` is pressed.
    pub open spec fn after_press(self, k: u8) -> Keyboard {
        match effect_of(k) {
            Some(effect) => Keyboard {
                modifiers: self.modifiers | effect.modifiers,
                keys: with_key(self.keys, effect.usage),
                media: self.media,
            },
            None => self,
        }
    }

    /// The keyboard after all keys are released.
    pub open spec fn after_release(self) -> Keyboard {
        Keyboard { modifiers: 0, keys: seq![0u8, 0u8, 0u8, 0u8, 0u8, 0u8], media: self.media }
    }

    /// The bytes of the keyboard report: the modifiers, a reserved zero, and
    /// the key slots.
    pub open spec fn key_report(self) -> Seq<u8> {
        seq![self.modifiers, 0u8] + self.keys
    }

    /// The keyboard after the media keys whose bits are set in `key` are
    /// pressed.
    pub open spec fn after_media_press(self, key: Seq<u8>) -> Keyboard {
        Keyboard {
            modifiers: self.modifiers,
            keys: self.keys,
            media: seq![self.media[0] | key[0], self.media[1] | key[1]],
        }
    }

    /// The keyboard after the media keys whose bits are set in `key` are
    /// released.
    pub open spec fn after_media_release(self, key: Seq<u8>) -> Keyboard {
        Keyboard {
            modifiers: self.modifiers,
            keys: self.keys,
            media: seq![self.media[0] & !key[0], self.media[1] & !key[1]],
        }
    }

    /// The keyboard after the bytes of `text` are typed: each is pressed and
    /// then everything is released.
    pub open spec fn after_typing(self, text: Seq<u8>) -> Keyboard
        decreases text.len(),
    {
        if text.len() == 0 {
            self
        } else {
            self.after_typing(text.drop_last()).after_press(text.last()).after_release()
        }
    }

    /// The keyboard reports that typing `text` sends: for each byte the
    /// report of the press, unless the byte has no effect, and the report of
    /// the release.
    pub open spec fn typing_reports(self, text: Seq<u8>) -> Seq<Seq<u8>>
        decreases text.len(),
    {
        if text.len() == 0 {
            Seq::empty()
        } else {
            let before = self.after_typing(text.drop_last());
            let down = before.after_press(text.last());
            let press = if effect_of(text.last()) is Some {
                seq![down.key_report()]
            } else {
                Seq::empty()
            };
            self.typing_reports(text.drop_last()) + press + seq![down.after_release().key_report()]
        }
    }
}

/// The state of a HID keyboard with media keys. Each operation returns the
/// reports that it gives rise to, in the order in which they are to be sent.
#[derive(Clone, Copy, Debug)]
pub struct BleKeyboard {
    modifiers: u8,
    keys: [u8; 6],
    media_key_report: [u8; 2],
}

impl View for BleKeyboard {
    type V = Keyboard;

    closed spec fn view(&self) -> Keyboard {
        Keyboard { modifiers: self.modifiers, keys: self.keys@, media: self.media_key_report@ }
    }
}

impl BleKeyboard {
    /// A keyboard with no key down.
    pub fn new() -> (keyboard: BleKeyboard)
        ensures
            keyboard@ == Keyboard::initial(),
    {
        let keyboard = BleKeyboard { modifiers: 0, keys: [0; 6], media_key_report: [0; 2] };
        assert(keyboard.keys@ =~= seq![0u8, 0u8, 0u8, 0u8, 0u8, 0u8]);
        assert(keyboard.media_key_report@ =~= seq![0u8, 0u8]);
        keyboard
    }

    /// The bytes of the keyboard report as it stands.
    pub fn key_report(&self) -> (bytes: [u8; 8])
        ensures
            bytes@ == self@.key_report(),
    {
        let bytes = [
            self.modifiers,
            0,
            self.keys[0],
            self.keys[1],
            self.keys[2],
            self.keys[3],
            self.keys[4],
            self.keys[5],
        ];
        bytes
    }

    /// The bytes of the media-key report as it stands.
    pub fn media_key_report(&self) -> (bytes: [u8; 2])
        ensures
            bytes@ == self@.media,
    {
        self.media_key_report
    }

    /// Puts `usage` into a key slot.
    fn hold(&mut self, usage: u8)
        ensures
            final(self)@ == (Keyboard {
                keys: with_key(old(self)@.keys, usage),
                ..old(self)@
            }),
    {
        let mut held = false;
        let mut i: usize = 0;
        while i < 6
            invariant
                i <= 6,
                *self == *old(self),
                held <==> exists|j: int| 0 <= j < i && self.keys@[j] == usage,
            decreases 6 - i,
        {
            if self.keys[i] == usage {
                held = true;
            }
            i += 1;
        }
        if held {
            return ;
        }
        let mut slot: usize = 0;
        while slot < 6
            invariant
                slot <= 6,
                *self == *old(self),
                !self.keys@.contains(usage),
                forall|j: int| 0 <= j < slot ==> self.keys@[j] != 0,
            decreases 6 - slot,
        {
            if self.keys[slot] == 0 {
                proof {
                    self.keys@.index_of_first_ensures(0u8);
                }
                self.keys[slot] = usage;
                return ;
            }
            slot += 1;
        }
        proof {
            self.keys@.index_of_first_ensures(0u8);
        }
    }

    /// Presses the key with code `k`. Returns the report to send; none
    /// where `k` is a character that no key types.
    pub fn press(&mut self, k: u8) -> (report: Option<[u8; 8]>)
        ensures
            final(self)@ == old(self)@.after_press(k),
            report is Some <==> effect_of(k) is Some,
            report matches Some(bytes) ==> bytes@ == final(self)@.key_report(),
    {
        if k >= USAGE_BASE {
            self.hold(k - USAGE_BASE);
            assert(self.modifiers | 0 == self.modifiers) by (bit_vector);
        } else if k >= MODIFIER_BASE {
            self.modifiers = self.modifiers | (1u8 << (k - MODIFIER_BASE));
            self.hold(0);
        } else {
            match stroke(k) {
                None => {
                    return None;
                },
                Some(found) => {
                    if found.shift {
                        self.modifiers = self.modifiers | MODIFIER_LEFT_SHIFT;
                    } else {
                        assert(self.modifiers | 0 == self.modifiers) by (bit_vector);
                    }
                    self.hold(found.usage);
                },
            }
        }
        Some(self.key_report())
    }

    /// Releases all keys. Returns the report to send.
    pub fn release(&mut self) -> (report: [u8; 8])
        ensures
            final(self)@ == old(self)@.after_release(),
            report@ == final(self)@.key_report(),
    {
        self.modifiers = 0;
        self.keys = [0; 6];
        assert(self.keys@ =~= seq![0u8, 0u8, 0u8, 0u8, 0u8, 0u8]);
        self.key_report()
    }

    /// Presses the media keys whose bits are set in `k`. Returns the report
    /// to send.
    pub fn press_media_key(&mut self, k: &[u8; 2]) -> (report: [u8; 2])
        ensures
            final(self)@ == old(self)@.after_media_press(k@),
            report@ == final(self)@.media,
    {
        self.media_key_report = [self.media_key_report[0] | k[0], self.media_key_report[1] | k[1]];
        self.media_key_report
    }

    /// Releases the media keys whose bits are set in `k`. Returns the
    /// report to send.
    pub fn release_media_keys(&mut self, k: &[u8; 2]) -> (report: [u8; 2])
        ensures
            final(self)@ == old(self)@.after_media_release(k@),
            report@ == final(self)@.media,
    {
        self.media_key_report = [
            self.media_key_report[0] & !k[0],
            self.media_key_report[1] & !k[1],
        ];
        self.media_key_report
    }

    /// Taps the media key `k`: the report with the key down, then the
    /// report with it up again.
    fn tap_media_key(&mut self, k: &[u8; 2]) -> (reports: ([u8; 2], [u8; 2]))
        ensures
            final(self)@ == old(self)@.after_media_press(k@).after_media_release(k@),
            reports.0@ == old(self)@.after_media_press(k@).media,
            reports.1@ == final(self)@.media,
    {
        let down = self.press_media_key(k);
        let up = self.release_media_keys(k);
        (down, up)
    }

    /// Turns the volume up by one step. Returns the two reports to send.
    pub fn volume_up(&mut self) -> (reports: ([u8; 2], [u8; 2]))
        ensures
            final(self)@ == old(self)@.after_media_press(KEY_MEDIA_VOLUME_UP@)
                .after_media_release(KEY_MEDIA_VOLUME_UP@),
            reports.0@ == old(self)@.after_media_press(KEY_MEDIA_VOLUME_UP@).media,
            reports.1@ == final(self)@.media,
    {
        self.tap_media_key(&KEY_MEDIA_VOLUME_UP)
    }

    /// Turns the volume down by one step. Returns the two reports to send.
    pub fn volume_down(&mut self) -> (reports: ([u8; 2], [u8; 2]))
        ensures
            final(self)@ == old(self)@.after_media_press(KEY_MEDIA_VOLUME_DOWN@)
                .after_media_release(KEY_MEDIA_VOLUME_DOWN@),
            reports.0@ == old(self)@.after_media_press(KEY_MEDIA_VOLUME_DOWN@).media,
            reports.1@ == final(self)@.media,
    {
        self.tap_media_key(&KEY_MEDIA_VOLUME_DOWN)
    }

    /// Types control, shift and M together. Returns the four reports to
    /// send: the three presses and the release.
    pub fn toggle_mute(&mut self) -> (reports: Vec<[u8; 8]>)
        ensures
            final(self)@ == old(self)@.after_press(KEY_LEFT_CTRL).after_press(KEY_LEFT_SHIFT)
                .after_press(KEY_M).after_release(),
            report_views(reports@) == seq![
                old(self)@.after_press(KEY_LEFT_CTRL).key_report(),
                old(self)@.after_press(KEY_LEFT_CTRL).after_press(KEY_LEFT_SHIFT).key_report(),
                old(self)@.after_press(KEY_LEFT_CTRL).after_press(KEY_LEFT_SHIFT)
                    .after_press(KEY_M).key_report(),
                final(self)@.key_report(),
            ],
    {
        let mut reports: Vec<[u8; 8]> = Vec::new();
        if let Some(report) = self.press(KEY_LEFT_CTRL) {
            reports.push(report);
        }
        if let Some(report) = self.press(KEY_LEFT_SHIFT) {
            reports.push(report);
        }
        if let Some(report) = self.press(KEY_M) {
            reports.push(report);
        }
        reports.push(self.release());
        reports
    }

    /// Types the bytes of `text`, one after the other. Returns the reports
    /// to send.
    pub fn _write(&mut self, text: &str) -> (reports: Vec<[u8; 8]>)
        ensures
            final(self)@ == old(self)@.after_typing(text.spec_bytes()),
            report_views(reports@) == old(self)@.typing_reports(text.spec_bytes()),
    {
        let bytes = text.as_bytes();
        let mut reports: Vec<[u8; 8]> = Vec::new();
        let mut i: usize = 0;
        while i < bytes.len()
            invariant
                i <= bytes.len(),
                self@ == old(self)@.after_typing(bytes@.take(i as int)),
                report_views(reports@) == old(self)@.typing_reports(bytes@.take(i as int)),
            decreases bytes.len() - i,
        {
            assert(bytes@.take(i as int + 1).drop_last() =~= bytes@.take(i as int));
            if let Some(report) = self.press(bytes[i]) {
                reports.push(report);
            }
            reports.push(self.release());
            i += 1;
        }
        assert(bytes@.take(i as int) =~= bytes@);
        reports
    }
}

} // verus!

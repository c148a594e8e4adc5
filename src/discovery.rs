//! Port discovery: the attributes of each port the driver reports, and the
//! parsing of platform listings.

use crate::state::{BLUETOOTH, PCI, UNKNOWN, USB};
use crate::text::decimal_string;
use crate::text::decimal;
use vstd::multiset::Multiset;
use vstd::prelude::*;
use vstd::string::StringExecFns;

verus! {

/// What the driver knows of a USB port.
pub struct UsbDetails {
    /// Vendor id.
    pub vid: u16,
    /// Product id.
    pub pid: u16,
    /// Serial number, when reported.
    pub serial_number: Option<String>,
    /// Manufacturer, when reported.
    pub manufacturer: Option<String>,
    /// Product name, when reported.
    pub product: Option<String>,
}

/// How a port is connected.
pub enum PortKind {
    /// Over USB.
    Usb(UsbDetails),
    /// A PCI (built-in) port.
    Pci,
    /// Over Bluetooth.
    Bluetooth,
    /// Not known.
    Unknown,
}

/// The attributes reported for a port; each is `Unknown` when not known.
pub struct PortDetails {
    /// Connection kind: `USB`, `PCI`, `Bluetooth` or `Unknown`.
    pub port_type: String,
    /// Vendor id in decimal.
    pub vid: String,
    /// Product id in decimal.
    pub pid: String,
    /// Serial number.
    pub serial_number: String,
    /// Manufacturer.
    pub manufacturer: String,
    /// Product name.
    pub product: String,
}

/// The attributes of a port as texts, in the order of `PortDetails`.
pub type DetailsView = (Seq<char>, Seq<char>, Seq<char>, Seq<char>, Seq<char>, Seq<char>);

impl View for PortDetails {
    type V = DetailsView;

    open spec fn view(&self) -> DetailsView {
        (self.port_type@, self.vid@, self.pid@, self.serial_number@, self.manufacturer@, self.product@)
    }
}

/// The reported text, or `Unknown`.
pub open spec fn or_unknown(o: Option<String>) -> Seq<char> {
    match o {
        Some(s) => s@,
        None => UNKNOWN@,
    }
}

/// The attributes of a port of kind `kind`.
pub open spec fn details_of(kind: PortKind) -> DetailsView {
    match kind {
        PortKind::Usb(u) => (
            USB@,
            decimal(u.vid as nat),
            decimal(u.pid as nat),
            or_unknown(u.serial_number),
            or_unknown(u.manufacturer),
            or_unknown(u.product),
        ),
        PortKind::Pci => (PCI@, UNKNOWN@, UNKNOWN@, UNKNOWN@, UNKNOWN@, UNKNOWN@),
        PortKind::Bluetooth => (BLUETOOTH@, UNKNOWN@, UNKNOWN@, UNKNOWN@, UNKNOWN@, UNKNOWN@),
        PortKind::Unknown => (UNKNOWN@, UNKNOWN@, UNKNOWN@, UNKNOWN@, UNKNOWN@, UNKNOWN@),
    }
}

fn text_or_unknown(o: &Option<String>) -> (r: String)
    ensures
        r@ == or_unknown(*o),
{
    match o {
        Some(s) => s.clone(),
        None => String::from_str(UNKNOWN),
    }
}

/// The attributes of a port of kind `kind`.
pub fn get_port_info(kind: &PortKind) -> (r: PortDetails)
    ensures
        r@ == details_of(*kind),
{
    match kind {
        PortKind::Usb(u) => PortDetails {
            port_type: String::from_str(USB),
            vid: decimal_string(u.vid as u64),
            pid: decimal_string(u.pid as u64),
            serial_number: text_or_unknown(&u.serial_number),
            manufacturer: text_or_unknown(&u.manufacturer),
            product: text_or_unknown(&u.product),
        },
        PortKind::Pci => PortDetails {
            port_type: String::from_str(PCI),
            vid: String::from_str(UNKNOWN),
            pid: String::from_str(UNKNOWN),
            serial_number: String::from_str(UNKNOWN),
            manufacturer: String::from_str(UNKNOWN),
            product: String::from_str(UNKNOWN),
        },
        PortKind::Bluetooth => PortDetails {
            port_type: String::from_str(BLUETOOTH),
            vid: String::from_str(UNKNOWN),
            pid: String::from_str(UNKNOWN),
            serial_number: String::from_str(UNKNOWN),
            manufacturer: String::from_str(UNKNOWN),
            product: String::from_str(UNKNOWN),
        },
        PortKind::Unknown => PortDetails {
            port_type: String::from_str(UNKNOWN),
            vid: String::from_str(UNKNOWN),
            pid: String::from_str(UNKNOWN),
            serial_number: String::from_str(UNKNOWN),
            manufacturer: String::from_str(UNKNOWN),
            product: String::from_str(UNKNOWN),
        },
    }
}

/// Each reported port with its attributes, in the order reported.
pub fn port_listing(found: Vec<(String, PortKind)>) -> (r: Vec<(String, PortDetails)>)
    ensures
        r@.len() == found@.len(),
        forall|i: int|
            0 <= i < r@.len() ==> (#[trigger] r@[i]).0@ == found@[i].0@ && r@[i].1@ == details_of(
                found@[i].1,
            ),
{
    let mut r: Vec<(String, PortDetails)> = Vec::new();
    let mut i: usize = 0;
    while i < found.len()
        invariant
            i <= found@.len(),
            r@.len() == i,
            forall|j: int|
                0 <= j < i ==> (#[trigger] r@[j]).0@ == found@[j].0@ && r@[j].1@ == details_of(
                    found@[j].1,
                ),
        decreases found@.len() - i,
    {
        let d = get_port_info(&found[i].1);
        r.push((found[i].0.clone(), d));
        i = i + 1;
    }
    r
}

} // verus!

verus! {

/// The lines of `s` as `str::lines` splits them.
pub uninterp spec fn lines_of(s: Seq<char>) -> Seq<Seq<char>>;

/// The whitespace-separated words of `s` as `str::split_whitespace` finds them.
pub uninterp spec fn words_of(s: Seq<char>) -> Seq<Seq<char>>;

/// Whether `p` is a prefix of `s`.
pub open spec fn has_prefix(s: Seq<char>, p: Seq<char>) -> bool {
    p.len() <= s.len() && s.subrange(0, p.len() as int) == p
}

/// Whether `p` occurs in `s`.
pub open spec fn has_infix(s: Seq<char>, p: Seq<char>) -> bool {
    exists|i: int| 0 <= i && i + p.len() <= s.len() && #[trigger] s.subrange(i, i + p.len()) == p
}

/// Relies on `str::lines`: the lines of `s`, without their line endings.
#[verifier::external_body]
fn text_lines(s: &str) -> (r: Vec<String>)
    ensures
        r@.map_values(|l: String| l@) == lines_of(s@),
{
    s.lines().map(|l| l.to_string()).collect()
}

/// Relies on `str::split_whitespace`: the words of `s`.
#[verifier::external_body]
fn text_words(s: &str) -> (r: Vec<String>)
    ensures
        r@.map_values(|w: String| w@) == words_of(s@),
{
    s.split_whitespace().map(|w| w.to_string()).collect()
}

/// Whether `p` occurs in `s` at position `at`.
fn occurs_at(s: &str, p: &str, at: usize) -> (r: bool)
    requires
        at + p@.len() <= s@.len(),
    ensures
        r == (s@.subrange(at as int, at + p@.len()) == p@),
{
    let n = p.unicode_len();
    let m = s.unicode_len();
    let mut i: usize = 0;
    while i < n
        invariant
            n == p@.len(),
            m == s@.len(),
            at + n <= s@.len(),
            i <= n,
            s@.subrange(at as int, at + i) == p@.subrange(0, i as int),
        decreases n - i,
    {
        if s.get_char(at + i) != p.get_char(i) {
            assert(s@.subrange(at as int, at + n)[i as int] != p@[i as int]);
            return false;
        }
        assert(s@.subrange(at as int, at + i + 1) =~= s@.subrange(at as int, at + i).push(
            s@[at + i],
        ));
        assert(p@.subrange(0, i + 1) =~= p@.subrange(0, i as int).push(p@[i as int]));
        i = i + 1;
    }
    assert(p@.subrange(0, n as int) =~= p@);
    true
}

/// Whether `p` is a prefix of `s`.
fn starts_with(s: &str, p: &str) -> (r: bool)
    ensures
        r == has_prefix(s@, p@),
{
    if p.unicode_len() > s.unicode_len() {
        return false;
    }
    occurs_at(s, p, 0)
}

/// Whether `p` occurs in `s`.
fn contains(s: &str, p: &str) -> (r: bool)
    ensures
        r == has_infix(s@, p@),
{
    let m = s.unicode_len();
    let n = p.unicode_len();
    if n > m {
        return false;
    }
    let mut at: usize = 0;
    loop
        invariant
            m == s@.len(),
            n == p@.len(),
            n <= m,
            at <= m - n,
            forall|j: int| 0 <= j < at ==> #[trigger] s@.subrange(j, j + n) != p@,
        ensures
            forall|j: int| 0 <= j <= m - n ==> #[trigger] s@.subrange(j, j + n) != p@,
        decreases m - n - at,
    {
        if occurs_at(s, p, at) {
            return true;
        }
        if at == m - n {
            break;
        }
        at = at + 1;
    }
    proof {
        assert forall|j: int| 0 <= j && j + p@.len() <= s@.len() implies #[trigger] s@.subrange(
            j,
            j + p@.len(),
        ) != p@ by {
            assert(j <= m - n);
        }
    }
    false
}

/// The platform listings that name serial ports.
#[derive(Debug, Copy, Clone, PartialEq, Eq, Structural)]
pub enum Listing {
    /// `lsusb` on Linux: each line naming a serial or USB device.
    LinuxUsb,
    /// `ls /dev` on Linux: `ttyUSB*`, `ttyS*`, `rfcomm*` and `ttyACM*` entries.
    LinuxDev,
    /// `system_profiler SPUSBDataType` on macOS: each line naming a serial or USB device.
    MacUsb,
    /// `ls /dev` on macOS: `cu.*` and `tty.*` entries.
    MacDev,
    /// The USB device table on Windows: the port is the second word of a row.
    WindowsUsb,
    /// The serial port table on Windows: the port is the first word of a row.
    WindowsCom,
}

/// The port and port type that line `l` of listing `k` names, if any.
pub open spec fn classify(k: Listing, l: Seq<char>) -> Option<(Seq<char>, Seq<char>)> {
    match k {
        Listing::LinuxUsb | Listing::MacUsb => if has_infix(l, "Serial"@) || has_infix(l, "USB"@) {
            Some((l, "USB"@))
        } else {
            None
        },
        Listing::LinuxDev => if has_prefix(l, "ttyUSB"@) {
            Some(("/dev/"@ + l, "USB"@))
        } else if has_prefix(l, "ttyS"@) {
            Some(("/dev/"@ + l, "COM"@))
        } else if has_prefix(l, "rfcomm"@) {
            Some(("/dev/"@ + l, "Bluetooth"@))
        } else if has_prefix(l, "ttyACM"@) {
            Some(("/dev/"@ + l, "Virtual"@))
        } else {
            None
        },
        Listing::MacDev => if has_prefix(l, "cu."@) || has_prefix(l, "tty."@) {
            Some(
                (
                    "/dev/"@ + l,
                    if has_infix(l, "Bluetooth"@) {
                        "Bluetooth"@
                    } else if has_prefix(l, "cu."@) {
                        "USB"@
                    } else {
                        "COM"@
                    },
                ),
            )
        } else {
            None
        },
        Listing::WindowsUsb => if words_of(l).len() >= 2 {
            Some((words_of(l)[1], "USB"@))
        } else {
            None
        },
        Listing::WindowsCom => if words_of(l).len() >= 2 {
            Some((words_of(l)[0], "COM"@))
        } else {
            None
        },
    }
}

/// The ports named by the lines `ls` of listing `k`, in order.
pub open spec fn collect(k: Listing, ls: Seq<Seq<char>>) -> Seq<(Seq<char>, Seq<char>)>
    decreases ls.len(),
{
    if ls.len() == 0 {
        Seq::empty()
    } else {
        collect(k, ls.drop_last()) + match classify(k, ls.last()) {
            Some(e) => seq![e],
            None => Seq::empty(),
        }
    }
}

/// The listing's entries as texts.
pub open spec fn entry_views(r: Seq<(String, String)>) -> Seq<(Seq<char>, Seq<char>)> {
    r.map_values(|e: (String, String)| (e.0@, e.1@))
}

/// The port and port type that `line` of listing `k` names, if any.
pub fn classify_line(k: Listing, line: &String) -> (r: Option<(String, String)>)
    ensures
        match r {
            Some(e) => classify(k, line@) == Some((e.0@, e.1@)),
            None => classify(k, line@) is None,
        },
{
    let l = line.as_str();
    match k {
        Listing::LinuxUsb | Listing::MacUsb => {
            if contains(l, "Serial") || contains(l, "USB") {
                Some((line.clone(), String::from_str("USB")))
            } else {
                None
            }
        },
        Listing::LinuxDev => {
            let t = if starts_with(l, "ttyUSB") {
                "USB"
            } else if starts_with(l, "ttyS") {
                "COM"
            } else if starts_with(l, "rfcomm") {
                "Bluetooth"
            } else if starts_with(l, "ttyACM") {
                "Virtual"
            } else {
                return None;
            };
            Some((String::from_str("/dev/").concat(l), String::from_str(t)))
        },
        Listing::MacDev => {
            if starts_with(l, "cu.") || starts_with(l, "tty.") {
                let t = if contains(l, "Bluetooth") {
                    "Bluetooth"
                } else if starts_with(l, "cu.") {
                    "USB"
                } else {
                    "COM"
                };
                Some((String::from_str("/dev/").concat(l), String::from_str(t)))
            } else {
                None
            }
        },
        Listing::WindowsUsb | Listing::WindowsCom => {
            let words = text_words(l);
            proof {
                assert(words@.len() == words_of(l@).len());
            }
            if words.len() >= 2 {
                let w = if k == Listing::WindowsUsb { 1 } else { 0 };
                let t = if k == Listing::WindowsUsb { "USB" } else { "COM" };
                proof {
                    assert(words@.map_values(|w: String| w@)[w as int] == words@[w as int]@);
                }
                Some((words[w].clone(), String::from_str(t)))
            } else {
                None
            }
        },
    }
}

/// The ports named by `lines` of listing `k`, from line `from` on, in order.
pub fn collect_lines(k: Listing, lines: &Vec<String>, from: usize) -> (r: Vec<(String, String)>)
    ensures
        entry_views(r@) == collect(
            k,
            lines@.map_values(|l: String| l@).subrange(
                if from <= lines@.len() { from as int } else { lines@.len() as int },
                lines@.len() as int,
            ),
        ),
{
    let ghost all = lines@.map_values(|l: String| l@);
    let start = if from <= lines.len() { from } else { lines.len() };
    let mut r: Vec<(String, String)> = Vec::new();
    let mut i: usize = start;
    assert(all.subrange(start as int, start as int) =~= Seq::<Seq<char>>::empty());
    assert(entry_views(r@) =~= Seq::<(Seq<char>, Seq<char>)>::empty());
    while i < lines.len()
        invariant
            start <= i <= lines@.len(),
            all == lines@.map_values(|l: String| l@),
            entry_views(r@) == collect(k, all.subrange(start as int, i as int)),
        decreases lines@.len() - i,
    {
        let c = classify_line(k, &lines[i]);
        let ghost before = r@;
        let ghost sub = all.subrange(start as int, i + 1);
        assert(sub.drop_last() =~= all.subrange(start as int, i as int));
        assert(sub.last() == lines@[i as int]@);
        match c {
            Some(e) => {
                r.push(e);
                assert(entry_views(r@) =~= entry_views(before) + seq![(r@.last().0@, r@.last().1@)]);
            },
            None => {
                assert(collect(k, sub) =~= collect(k, sub.drop_last()));
            },
        }
        i = i + 1;
    }
    r
}

/// `a` followed by `b`.
fn concat_entries(a: Vec<(String, String)>, b: Vec<(String, String)>) -> (r: Vec<(String, String)>)
    ensures
        entry_views(r@) == entry_views(a@) + entry_views(b@),
{
    let ghost av = a@;
    let ghost bv = b@;
    let mut a = a;
    let mut b = b;
    a.append(&mut b);
    assert(entry_views(a@) =~= entry_views(av) + entry_views(bv));
    a
}

/// The lines of `s` from line `from` on, as texts.
pub open spec fn lines_from(s: Seq<char>, from: int) -> Seq<Seq<char>> {
    lines_of(s).subrange(if from <= lines_of(s).len() { from } else { lines_of(s).len() as int }, lines_of(s).len() as int)
}

/// The ports named by two listings, the first's before the second's;
/// `skip` header lines are left out of each.
fn scan_pair(k1: Listing, text1: &str, k2: Listing, text2: &str, skip: usize) -> (r: Vec<(String, String)>)
    ensures
        entry_views(r@) == collect(k1, lines_from(text1@, skip as int)) + collect(k2, lines_from(text2@, skip as int)),
{
    let l1 = text_lines(text1);
    let l2 = text_lines(text2);
    let a = collect_lines(k1, &l1, skip);
    let b = collect_lines(k2, &l2, skip);
    concat_entries(a, b)
}

/// The ports that Linux reports through `lsusb` (`usb_listing`) and
/// `ls /dev` (`dev_listing`), each with its port type.
pub fn direct_ports_linux(usb_listing: &str, dev_listing: &str) -> (r: Vec<(String, String)>)
    ensures
        entry_views(r@) == collect(Listing::LinuxUsb, lines_of(usb_listing@)) + collect(Listing::LinuxDev, lines_of(dev_listing@)),
{
    let r = scan_pair(Listing::LinuxUsb, usb_listing, Listing::LinuxDev, dev_listing, 0);
    assert(lines_from(usb_listing@, 0) =~= lines_of(usb_listing@));
    assert(lines_from(dev_listing@, 0) =~= lines_of(dev_listing@));
    r
}

/// The ports that macOS reports through `system_profiler SPUSBDataType`
/// (`usb_listing`) and `ls /dev` (`dev_listing`), each with its port type.
pub fn direct_ports_macos(usb_listing: &str, dev_listing: &str) -> (r: Vec<(String, String)>)
    ensures
        entry_views(r@) == collect(Listing::MacUsb, lines_of(usb_listing@)) + collect(Listing::MacDev, lines_of(dev_listing@)),
{
    let r = scan_pair(Listing::MacUsb, usb_listing, Listing::MacDev, dev_listing, 0);
    assert(lines_from(usb_listing@, 0) =~= lines_of(usb_listing@));
    assert(lines_from(dev_listing@, 0) =~= lines_of(dev_listing@));
    r
}

/// The ports that Windows reports in its USB device table (`usb_table`)
/// and serial port table (`com_table`), each with its port type; the first
/// line of each table is its header.
pub fn direct_ports_windows(usb_table: &str, com_table: &str) -> (r: Vec<(String, String)>)
    ensures
        entry_views(r@) == collect(Listing::WindowsUsb, lines_from(usb_table@, 1)) + collect(Listing::WindowsCom, lines_from(com_table@, 1)),
{
    scan_pair(Listing::WindowsUsb, usb_table, Listing::WindowsCom, com_table, 1)
}

} // verus!

verus! {

/// Whether `a` comes before `b` or equals it, comparing from position `i`
/// on, character by character by code point; a proper prefix comes first.
pub open spec fn name_le_from(a: Seq<char>, b: Seq<char>, i: int) -> bool
    decreases a.len() - i,
{
    if i < 0 || i >= a.len() {
        true
    } else if i >= b.len() {
        false
    } else if (a[i] as u32) < (b[i] as u32) {
        true
    } else if (a[i] as u32) > (b[i] as u32) {
        false
    } else {
        name_le_from(a, b, i + 1)
    }
}

/// Whether the name `a` sorts before `b` or equals it.
pub open spec fn name_le(a: Seq<char>, b: Seq<char>) -> bool {
    name_le_from(a, b, 0)
}

/// Of two names, one sorts before the other or they are equal.
pub proof fn lemma_name_le_total(a: Seq<char>, b: Seq<char>, i: int)
    requires
        0 <= i,
        !name_le_from(a, b, i),
    ensures
        name_le_from(b, a, i),
    decreases a.len() - i,
{
    if i < a.len() && i < b.len() && (a[i] as u32) == (b[i] as u32) {
        lemma_name_le_total(a, b, i + 1);
    }
}

/// Whether the name `a` sorts before `b` or equals it.
pub fn name_le_exec(a: &str, b: &str) -> (r: bool)
    ensures
        r == name_le(a@, b@),
{
    let na = a.unicode_len();
    let nb = b.unicode_len();
    let mut i: usize = 0;
    while i < na
        invariant
            na == a@.len(),
            nb == b@.len(),
            name_le(a@, b@) == name_le_from(a@, b@, i as int),
        decreases na - i,
    {
        if i >= nb {
            return false;
        }
        let x = a.get_char(i) as u32;
        let y = b.get_char(i) as u32;
        if x < y {
            return true;
        }
        if x > y {
            return false;
        }
        i = i + 1;
    }
    true
}

/// A listing entry as texts.
pub open spec fn listing_view(e: (String, PortDetails)) -> (Seq<char>, DetailsView) {
    (e.0@, e.1@)
}

/// The entries are ordered by name.
pub open spec fn sorted_by_name(s: Seq<(String, PortDetails)>) -> bool {
    forall|i: int| 0 <= i && i + 1 < s.len() ==> name_le(#[trigger] s[i].0@, s[i + 1].0@)
}

/// The entries as texts.
pub open spec fn listing_views(s: Seq<(String, PortDetails)>) -> Seq<(Seq<char>, DetailsView)> {
    s.map_values(|e: (String, PortDetails)| listing_view(e))
}

/// The entries of `v` ordered by name; entries with equal names keep their
/// order.
pub fn sort_by_name(v: Vec<(String, PortDetails)>) -> (r: Vec<(String, PortDetails)>)
    ensures
        sorted_by_name(r@),
        listing_views(r@).to_multiset() == listing_views(v@).to_multiset(),
{
    broadcast use vstd::seq_lib::group_to_multiset_ensures, vstd::multiset::group_multiset_axioms,
        vstd::multiset::lemma_multiset_empty_len;

    let ghost orig = listing_views(v@);
    let mut rest = v;
    let mut r: Vec<(String, PortDetails)> = Vec::new();
    assert(listing_views(r@) =~= Seq::<(Seq<char>, DetailsView)>::empty());
    assert(listing_views(r@).to_multiset() =~= Multiset::<(Seq<char>, DetailsView)>::empty());
    assert(listing_views(r@).to_multiset().add(listing_views(rest@).to_multiset()) =~= orig.to_multiset());
    while rest.len() > 0
        invariant
            sorted_by_name(r@),
            listing_views(r@).to_multiset().add(listing_views(rest@).to_multiset()) == orig.to_multiset(),
        decreases rest@.len(),
    {
        let ghost rest_before = rest@;
        let x = rest.remove(0);
        proof {
            let rb = listing_views(rest_before);
            assert(rb.remove(0) =~= listing_views(rest@));
            assert(rb[0] == listing_view(x));
            assert(rb.len() == rest_before.len());
            vstd::seq_lib::to_multiset_remove(rb, 0);
            assert(rb.contains(rb[0]));
            vstd::seq_lib::to_multiset_contains(rb, rb[0]);
        }
        let mut p: usize = r.len();
        while p > 0 && !name_le_exec(r[p - 1].0.as_str(), x.0.as_str())
            invariant
                p <= r@.len(),
                sorted_by_name(r@),
                p < r@.len() ==> name_le(x.0@, r@[p as int].0@),
            decreases p,
        {
            proof {
                lemma_name_le_total(r@[p - 1].0@, x.0@, 0);
            }
            p = p - 1;
        }
        let ghost r_before = r@;
        r.insert(p, x);
        proof {
            let vb = listing_views(r_before);
            assert(listing_views(r@) =~= vb.insert(p as int, listing_view(x)));
            assert(vb.len() == r_before.len());
            vstd::seq_lib::to_multiset_insert(vb, p as int, listing_view(x));
            assert(listing_views(r@).to_multiset().add(listing_views(rest@).to_multiset()) =~= orig.to_multiset());
            assert forall|i: int| 0 <= i && i + 1 < r@.len() implies name_le(
                #[trigger] r@[i].0@,
                r@[i + 1].0@,
            ) by {
                if i + 1 < p {
                    assert(r@[i] == r_before[i] && r@[i + 1] == r_before[i + 1]);
                } else if i + 1 == p {
                    assert(r@[i] == r_before[i]);
                } else if i == p {
                    assert(r@[i + 1] == r_before[i]);
                } else {
                    assert(r@[i] == r_before[i - 1] && r@[i + 1] == r_before[i]);
                }
            }
        }
    }
    assert(listing_views(rest@) =~= Seq::<(Seq<char>, DetailsView)>::empty());
    assert(listing_views(rest@).to_multiset() =~= Multiset::<(Seq<char>, DetailsView)>::empty());
    assert(listing_views(r@).to_multiset() =~= orig.to_multiset());
    r
}

/// The reported ports with their attributes, as texts.
pub open spec fn reported_views(found: Seq<(String, PortKind)>) -> Seq<(Seq<char>, DetailsView)> {
    found.map_values(|p: (String, PortKind)| (p.0@, details_of(p.1)))
}

/// Each reported port with its attributes, ordered by name.
pub fn sorted_listing(found: Vec<(String, PortKind)>) -> (r: Vec<(String, PortDetails)>)
    ensures
        sorted_by_name(r@),
        listing_views(r@).to_multiset() == reported_views(found@).to_multiset(),
{
    let ghost reported = reported_views(found@);
    let l = port_listing(found);
    assert(listing_views(l@) =~= reported);
    sort_by_name(l)
}

} // verus!

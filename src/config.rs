//! Reading the settings out of a parsed configuration document.
//!
//! The document is a tree of `ConfigValue`s. Its root is a table with a
//! `files` list, each entry a table with a `path`, an optional `output` and
//! the file's own jobs; the root's own jobs are the shared defaults. A job
//! table has the keys `width`, `height`, `blur`, `sharpen`, `contrast`,
//! `brighten`, `huerotate`, `flipv`, `fliph`, `rotate90`, `rotate180`,
//! `rotate270`, `grayscale`, `invert` and `resize_filter`, each optional.
use vstd::prelude::*;

use crate::paths::{derived_output_path, derived_path, part_name, PathPart};
use crate::settings::{FileWatch, ImgEditJobs, Resize, ResizeFilter, Settings, SharedSettings, Size};

verus! {

/// A node of a parsed configuration document.
pub enum ConfigValue {
    /// A real number, as the bit pattern of the single-precision value it
    /// narrows to (`f32::to_bits`); `None` if its text is no number.
    Real(Option<u32>),
    Integer(i64),
    Text(String),
    Boolean(bool),
    List(Vec<ConfigValue>),
    /// A table, its entries in document order.
    Table(Vec<ConfigEntry>),
    /// A null, an alias or anything else that no setting can be.
    Other,
}

/// One entry of a table.
pub struct ConfigEntry {
    pub key: ConfigValue,
    pub value: ConfigValue,
}

/// Whether entry `e` has the text `k` as its key.
pub open spec fn has_key(e: ConfigEntry, k: Seq<char>) -> bool {
    e.key is Text && e.key->Text_0@ == k
}

/// The index of the first entry from `i` on whose key is `k`.
pub open spec fn find_from(t: Seq<ConfigEntry>, k: Seq<char>, i: int) -> Option<int>
    decreases t.len() - i,
{
    if i < 0 || i >= t.len() {
        None
    } else if has_key(t[i], k) {
        Some(i)
    } else {
        find_from(t, k, i + 1)
    }
}

/// The value of the first entry of table `t` whose key is `k`.
pub open spec fn lookup(t: Seq<ConfigEntry>, k: Seq<char>) -> Option<ConfigValue> {
    match find_from(t, k, 0) {
        Some(i) => Some(t[i].value),
        None => None,
    }
}

/// Whether an executable result and a specified one agree, the error of the
/// former as text.
pub open spec fn agrees<T>(r: Result<T, String>, s: Result<T, Seq<char>>) -> bool {
    match r {
        Ok(v) => s == Ok::<T, Seq<char>>(v),
        Err(e) => s == Err::<T, Seq<char>>(e@),
    }
}

pub open spec fn int_field(t: Seq<ConfigEntry>, f: Seq<char>, lo: int, hi: int) -> Result<
    Option<int>,
    Seq<char>,
> {
    match lookup(t, f) {
        None => Ok(None),
        Some(v) => if v is Integer && lo <= v->Integer_0 <= hi {
            Ok(Some(v->Integer_0 as int))
        } else {
            Err(f + " value is valid: Not a valid number"@)
        },
    }
}

/// The `i32` under key `f`, if any.
pub open spec fn i32_field(t: Seq<ConfigEntry>, f: Seq<char>) -> Result<Option<i32>, Seq<char>> {
    match int_field(t, f, i32::MIN as int, i32::MAX as int) {
        Ok(Some(v)) => Ok(Some(v as i32)),
        Ok(None) => Ok(None),
        Err(e) => Err(e),
    }
}

/// The `u32` under key `f`, if any.
pub open spec fn u32_field(t: Seq<ConfigEntry>, f: Seq<char>) -> Result<Option<u32>, Seq<char>> {
    match int_field(t, f, 0, u32::MAX as int) {
        Ok(Some(v)) => Ok(Some(v as u32)),
        Ok(None) => Ok(None),
        Err(e) => Err(e),
    }
}

/// The toggle under key `f`; off when the key is missing.
pub open spec fn bool_field(t: Seq<ConfigEntry>, f: Seq<char>) -> Result<bool, Seq<char>> {
    match lookup(t, f) {
        None => Ok(false),
        Some(v) => if v is Boolean {
            Ok(v->Boolean_0)
        } else {
            Err(f + " value is valid: Not true or false."@)
        },
    }
}

/// The real number under key `f`, as bits, if any.
pub open spec fn real_field(t: Seq<ConfigEntry>, f: Seq<char>) -> Result<Option<u32>, Seq<char>> {
    match lookup(t, f) {
        None => Ok(None),
        Some(v) => if v is Real && v->Real_0 is Some {
            Ok(v->Real_0)
        } else {
            Err(f + " value is valid: Not Float"@)
        },
    }
}

/// The resize size from the keys `width` and `height`, if either is there.
pub open spec fn size_field(t: Seq<ConfigEntry>) -> Result<Option<Size>, Seq<char>> {
    let w = u32_field(t, "width"@);
    let h = u32_field(t, "height"@);
    if w is Err {
        Err(w->Err_0)
    } else if h is Err {
        Err(h->Err_0)
    } else {
        match (w->Ok_0, h->Ok_0) {
            (Some(x), Some(y)) => Ok(Some(Size::WidthHeight(x, y))),
            (Some(x), None) => Ok(Some(Size::Width(x))),
            (None, Some(y)) => Ok(Some(Size::Height(y))),
            (None, None) => Ok(None),
        }
    }
}

/// The filter named `s`, if any.
pub open spec fn filter_named(s: Seq<char>) -> Option<ResizeFilter> {
    if s == "Nearest"@ {
        Some(ResizeFilter::Nearest)
    } else if s == "Triangle"@ {
        Some(ResizeFilter::Triangle)
    } else if s == "CatmullRom"@ {
        Some(ResizeFilter::CatmullRom)
    } else if s == "Gaussian"@ {
        Some(ResizeFilter::Gaussian)
    } else if s == "Lanczos3"@ {
        Some(ResizeFilter::Lanczos3)
    } else {
        None
    }
}

/// The filter under key `resize_filter`, if any.
pub open spec fn filter_field(t: Seq<ConfigEntry>) -> Result<Option<ResizeFilter>, Seq<char>> {
    match lookup(t, "resize_filter"@) {
        None => Ok(None),
        Some(v) => if v is Text {
            match filter_named(v->Text_0@) {
                Some(f) => Ok(Some(f)),
                None => Err("Unknown resize_filter "@ + v->Text_0@),
            }
        } else {
            Err("Resize_filter not a string."@)
        },
    }
}

/// Index of the first entry of `t` whose key is `k`.
fn find(t: &Vec<ConfigEntry>, k: &str) -> (r: Option<usize>)
    ensures
        match r {
            Some(i) => i < t@.len() && find_from(t@, k@, 0) == Some(i as int),
            None => find_from(t@, k@, 0) is None,
        },
{
    let key = k.to_owned();
    let mut i: usize = 0;
    while i < t.len()
        invariant
            i <= t@.len(),
            key@ == k@,
            find_from(t@, k@, 0) == find_from(t@, k@, i as int),
        decreases t@.len() - i,
    {
        let hit = match &t[i].key {
            ConfigValue::Text(s) => *s == key,
            _ => false,
        };
        if hit {
            return Some(i);
        }
        i = i + 1;
    }
    None
}

/// The value under key `k` of table `t`.
fn get<'a>(t: &'a Vec<ConfigEntry>, k: &str) -> (r: Option<&'a ConfigValue>)
    ensures
        match r {
            Some(v) => lookup(t@, k@) == Some(*v),
            None => lookup(t@, k@) is None,
        },
{
    match find(t, k) {
        Some(i) => Some(&t[i].value),
        None => None,
    }
}

/// The text `a` followed by `b`.
fn joined(a: &str, b: &str) -> (r: String)
    ensures
        r@ == a@ + b@,
{
    let mut s = a.to_owned();
    s.append(b);
    s
}

fn int_in(t: &Vec<ConfigEntry>, f: &str, lo: i64, hi: i64) -> (r: Result<Option<i64>, String>)
    ensures
        match r {
            Ok(Some(v)) => int_field(t@, f@, lo as int, hi as int) == Ok::<Option<int>, Seq<char>>(
                Some(v as int),
            ),
            Ok(None) => int_field(t@, f@, lo as int, hi as int) == Ok::<Option<int>, Seq<char>>(
                None,
            ),
            Err(e) => int_field(t@, f@, lo as int, hi as int) == Err::<Option<int>, Seq<char>>(
                e@,
            ),
        },
{
    match get(t, f) {
        None => Ok(None),
        Some(ConfigValue::Integer(v)) if lo <= *v && *v <= hi => Ok(Some(*v)),
        Some(_) => Err(joined(f, " value is valid: Not a valid number")),
    }
}

/// The `i32` under key `f` of table `t`, if any.
pub fn get_i32(t: &Vec<ConfigEntry>, f: &str) -> (r: Result<Option<i32>, String>)
    ensures
        agrees(r, i32_field(t@, f@)),
{
    match int_in(t, f, i32::MIN as i64, i32::MAX as i64) {
        Ok(Some(v)) => Ok(Some(v as i32)),
        Ok(None) => Ok(None),
        Err(e) => Err(e),
    }
}

/// The `u32` under key `f` of table `t`, if any.
pub fn get_u32(t: &Vec<ConfigEntry>, f: &str) -> (r: Result<Option<u32>, String>)
    ensures
        agrees(r, u32_field(t@, f@)),
{
    match int_in(t, f, 0, u32::MAX as i64) {
        Ok(Some(v)) => Ok(Some(v as u32)),
        Ok(None) => Ok(None),
        Err(e) => Err(e),
    }
}

/// The toggle under key `f` of table `t`; off when the key is missing.
pub fn get_bool(t: &Vec<ConfigEntry>, f: &str) -> (r: Result<bool, String>)
    ensures
        agrees(r, bool_field(t@, f@)),
{
    match get(t, f) {
        None => Ok(false),
        Some(ConfigValue::Boolean(b)) => Ok(*b),
        Some(_) => Err(joined(f, " value is valid: Not true or false.")),
    }
}

/// The real number under key `f` of table `t`, as bits, if any.
pub fn get_float(t: &Vec<ConfigEntry>, f: &str) -> (r: Result<Option<u32>, String>)
    ensures
        agrees(r, real_field(t@, f@)),
{
    match get(t, f) {
        None => Ok(None),
        Some(ConfigValue::Real(Some(bits))) => Ok(Some(*bits)),
        Some(_) => Err(joined(f, " value is valid: Not Float")),
    }
}

/// The resize size from the keys `width` and `height` of table `t`, if
/// either is there.
pub fn get_size(t: &Vec<ConfigEntry>) -> (r: Result<Option<Size>, String>)
    ensures
        agrees(r, size_field(t@)),
{
    let w = get_u32(t, "width")?;
    let h = get_u32(t, "height")?;
    Ok(
        match (w, h) {
            (Some(x), Some(y)) => Some(Size::WidthHeight(x, y)),
            (Some(x), None) => Some(Size::Width(x)),
            (None, Some(y)) => Some(Size::Height(y)),
            (None, None) => None,
        },
    )
}

/// The filter under key `resize_filter` of table `t`, if any.
pub fn get_resize_filter(t: &Vec<ConfigEntry>) -> (r: Result<Option<ResizeFilter>, String>)
    ensures
        agrees(r, filter_field(t@)),
{
    match get(t, "resize_filter") {
        None => Ok(None),
        Some(ConfigValue::Text(s)) => {
            if *s == "Nearest".to_owned() {
                Ok(Some(ResizeFilter::Nearest))
            } else if *s == "Triangle".to_owned() {
                Ok(Some(ResizeFilter::Triangle))
            } else if *s == "CatmullRom".to_owned() {
                Ok(Some(ResizeFilter::CatmullRom))
            } else if *s == "Gaussian".to_owned() {
                Ok(Some(ResizeFilter::Gaussian))
            } else if *s == "Lanczos3".to_owned() {
                Ok(Some(ResizeFilter::Lanczos3))
            } else {
                Err(joined("Unknown resize_filter ", s.as_str()))
            }
        },
        Some(_) => Err("Resize_filter not a string.".to_owned()),
    }
}

/// The jobs of table `t`; the first field in error, in the order of the
/// fields of `ImgEditJobs`, gives the error.
pub open spec fn jobs_field(t: Seq<ConfigEntry>) -> Result<ImgEditJobs, Seq<char>> {
    let resize = size_field(t);
    let blur = real_field(t, "blur"@);
    let sharpen = i32_field(t, "sharpen"@);
    let contrast = real_field(t, "contrast"@);
    let brighten = i32_field(t, "brighten"@);
    let huerotate = i32_field(t, "huerotate"@);
    let flipv = bool_field(t, "flipv"@);
    let fliph = bool_field(t, "fliph"@);
    let rotate90 = bool_field(t, "rotate90"@);
    let rotate180 = bool_field(t, "rotate180"@);
    let rotate270 = bool_field(t, "rotate270"@);
    let grayscale = bool_field(t, "grayscale"@);
    let invert = bool_field(t, "invert"@);
    if resize is Err {
        Err(resize->Err_0)
    } else if blur is Err {
        Err(blur->Err_0)
    } else if sharpen is Err {
        Err(sharpen->Err_0)
    } else if contrast is Err {
        Err(contrast->Err_0)
    } else if brighten is Err {
        Err(brighten->Err_0)
    } else if huerotate is Err {
        Err(huerotate->Err_0)
    } else if flipv is Err {
        Err(flipv->Err_0)
    } else if fliph is Err {
        Err(fliph->Err_0)
    } else if rotate90 is Err {
        Err(rotate90->Err_0)
    } else if rotate180 is Err {
        Err(rotate180->Err_0)
    } else if rotate270 is Err {
        Err(rotate270->Err_0)
    } else if grayscale is Err {
        Err(grayscale->Err_0)
    } else if invert is Err {
        Err(invert->Err_0)
    } else {
        Ok(
            ImgEditJobs {
                resize: match resize->Ok_0 {
                    Some(size) => Some(Resize { size }),
                    None => None,
                },
                blur: blur->Ok_0,
                sharpen: sharpen->Ok_0,
                adjust_contrast: contrast->Ok_0,
                brighten: brighten->Ok_0,
                huerotate: huerotate->Ok_0,
                flipv: flipv->Ok_0,
                fliph: fliph->Ok_0,
                rotate90: rotate90->Ok_0,
                rotate180: rotate180->Ok_0,
                rotate270: rotate270->Ok_0,
                grayscale: grayscale->Ok_0,
                invert: invert->Ok_0,
            },
        )
    }
}

/// The jobs and resize filter of table `t`.
pub open spec fn shared_field(t: Seq<ConfigEntry>) -> Result<SharedSettings, Seq<char>> {
    let jobs = jobs_field(t);
    let filter = filter_field(t);
    if jobs is Err {
        Err(jobs->Err_0)
    } else if filter is Err {
        Err(filter->Err_0)
    } else {
        Ok(SharedSettings { jobs: jobs->Ok_0, resize_filter: filter->Ok_0 })
    }
}

/// Reads the jobs of table `t`.
pub fn get_jobs(t: &Vec<ConfigEntry>) -> (r: Result<ImgEditJobs, String>)
    ensures
        agrees(r, jobs_field(t@)),
{
    let resize = match get_size(t)? {
        Some(size) => Some(Resize { size }),
        None => None,
    };
    let blur = get_float(t, "blur")?;
    let sharpen = get_i32(t, "sharpen")?;
    let adjust_contrast = get_float(t, "contrast")?;
    let brighten = get_i32(t, "brighten")?;
    let huerotate = get_i32(t, "huerotate")?;
    let flipv = get_bool(t, "flipv")?;
    let fliph = get_bool(t, "fliph")?;
    let rotate90 = get_bool(t, "rotate90")?;
    let rotate180 = get_bool(t, "rotate180")?;
    let rotate270 = get_bool(t, "rotate270")?;
    let grayscale = get_bool(t, "grayscale")?;
    let invert = get_bool(t, "invert")?;
    Ok(
        ImgEditJobs {
            resize,
            blur,
            sharpen,
            adjust_contrast,
            brighten,
            huerotate,
            flipv,
            fliph,
            rotate90,
            rotate180,
            rotate270,
            grayscale,
            invert,
        },
    )
}

/// Reads the jobs and resize filter of table `t`.
pub fn get_shared(t: &Vec<ConfigEntry>) -> (r: Result<SharedSettings, String>)
    ensures
        agrees(r, shared_field(t@)),
{
    let jobs = get_jobs(t)?;
    let resize_filter = get_resize_filter(t)?;
    Ok(SharedSettings { jobs, resize_filter })
}

/// The character of decimal digit `d`.
pub open spec fn digit_char(d: nat) -> char {
    if d == 0 {
        '0'
    } else if d == 1 {
        '1'
    } else if d == 2 {
        '2'
    } else if d == 3 {
        '3'
    } else if d == 4 {
        '4'
    } else if d == 5 {
        '5'
    } else if d == 6 {
        '6'
    } else if d == 7 {
        '7'
    } else if d == 8 {
        '8'
    } else {
        '9'
    }
}

/// `n` written in decimal.
pub open spec fn decimal(n: nat) -> Seq<char>
    decreases n,
{
    if n < 10 {
        seq![digit_char(n)]
    } else {
        decimal(n / 10) + seq![digit_char(n % 10)]
    }
}

fn digit_text(d: usize) -> (r: &'static str)
    requires
        d < 10,
    ensures
        r@ == seq![digit_char(d as nat)],
{
    proof {
        reveal_strlit("0");
        reveal_strlit("1");
        reveal_strlit("2");
        reveal_strlit("3");
        reveal_strlit("4");
        reveal_strlit("5");
        reveal_strlit("6");
        reveal_strlit("7");
        reveal_strlit("8");
        reveal_strlit("9");
    }
    let r = if d == 0 {
        "0"
    } else if d == 1 {
        "1"
    } else if d == 2 {
        "2"
    } else if d == 3 {
        "3"
    } else if d == 4 {
        "4"
    } else if d == 5 {
        "5"
    } else if d == 6 {
        "6"
    } else if d == 7 {
        "7"
    } else if d == 8 {
        "8"
    } else {
        "9"
    };
    assert(r@ =~= seq![digit_char(d as nat)]);
    r
}

/// `n` written in decimal.
pub fn decimal_text(n: usize) -> (r: String)
    ensures
        r@ == decimal(n as nat),
    decreases n,
{
    if n < 10 {
        digit_text(n).to_owned()
    } else {
        let mut s = decimal_text(n / 10);
        s.append(digit_text(n % 10));
        s
    }
}

/// The start of a message about the file at index `i` of the list.
pub open spec fn file_prefix(i: nat) -> Seq<char> {
    "file index "@ + decimal(i)
}

fn file_message(i: usize, rest: &str) -> (r: String)
    ensures
        r@ == file_prefix(i as nat) + rest@,
{
    let mut s = "file index ".to_owned();
    s.append(decimal_text(i).as_str());
    s.append(rest);
    s
}

/// The output path of the file at index `i`, whose table is `t` and source
/// path `path`: the configured one, else the derived one.
pub open spec fn output_field(t: Seq<ConfigEntry>, path: Seq<char>, i: nat) -> Result<
    Seq<char>,
    Seq<char>,
> {
    match lookup(t, "output"@) {
        Some(v) => if v is Text {
            Ok(v->Text_0@)
        } else {
            Err(file_prefix(i) + " has a output path that is not a string"@)
        },
        None => match derived_path(path) {
            Ok(o) => Ok(o),
            Err(part) => Err(
                file_prefix(i) + " has a output path with invalid "@ + part_name(part) + "."@,
            ),
        },
    }
}

/// The source path, output path and settings of the file at index `i`,
/// whose table is `t`.
pub open spec fn file_field(t: Seq<ConfigEntry>, i: nat) -> Result<
    (Seq<char>, Seq<char>, SharedSettings),
    Seq<char>,
> {
    match lookup(t, "path"@) {
        None => Err(file_prefix(i) + " has no path"@),
        Some(v) => if !(v is Text) {
            Err(file_prefix(i) + " has a path that is not a string"@)
        } else {
            let path = v->Text_0@;
            let output = output_field(t, path, i);
            let other = shared_field(t);
            if output is Err {
                Err(output->Err_0)
            } else if other is Err {
                Err(other->Err_0)
            } else {
                Ok((path, output->Ok_0, other->Ok_0))
            }
        },
    }
}

/// A watched file as plain values.
pub open spec fn file_view(f: FileWatch) -> (Seq<char>, Seq<char>, SharedSettings) {
    (f.path@, f.output@, f.other)
}

/// Reads the file at index `i`, whose table is `t`.
pub fn get_file(t: &Vec<ConfigEntry>, i: usize) -> (r: Result<FileWatch, String>)
    ensures
        match r {
            Ok(f) => file_field(t@, i as nat) == Ok::<
                (Seq<char>, Seq<char>, SharedSettings),
                Seq<char>,
            >(file_view(f)),
            Err(e) => file_field(t@, i as nat) == Err::<
                (Seq<char>, Seq<char>, SharedSettings),
                Seq<char>,
            >(e@),
        },
{
    let path = match get(t, "path") {
        None => return Err(file_message(i, " has no path")),
        Some(ConfigValue::Text(p)) => p.clone(),
        Some(_) => return Err(file_message(i, " has a path that is not a string")),
    };
    let output = match get(t, "output") {
        Some(ConfigValue::Text(o)) => o.clone(),
        Some(_) => return Err(file_message(i, " has a output path that is not a string")),
        None => match derived_output_path(path.as_str()) {
            Ok(o) => o,
            Err(part) => {
                let mut m = file_message(i, " has a output path with invalid ");
                m.append(part.name());
                m.append(".");
                return Err(m);
            },
        },
    };
    let other = get_shared(t)?;
    Ok(FileWatch { path, output, other })
}

/// The index of the first entry of `files` from `i` on that is no table.
pub open spec fn first_non_table(files: Seq<ConfigValue>, i: int) -> Option<int>
    decreases files.len() - i,
{
    if i < 0 || i >= files.len() {
        None
    } else if !(files[i] is Table) {
        Some(i)
    } else {
        first_non_table(files, i + 1)
    }
}

/// The first `k` files of the list, or the error of the first of them that
/// is in error.
pub open spec fn files_upto(files: Seq<ConfigValue>, k: int) -> Result<
    Seq<(Seq<char>, Seq<char>, SharedSettings)>,
    Seq<char>,
>
    decreases k,
{
    if k <= 0 {
        Ok(Seq::empty())
    } else {
        match files_upto(files, k - 1) {
            Err(e) => Err(e),
            Ok(prev) => match file_field(files[k - 1]->Table_0@, (k - 1) as nat) {
                Err(e) => Err(e),
                Ok(f) => Ok(prev.push(f)),
            },
        }
    }
}

/// The settings that a document with root `root` holds: its files and its
/// shared settings, or the first error met reading the root, then checking
/// that every file is a table, then reading the files in order, then the
/// shared settings.
pub open spec fn settings_of(root: ConfigValue) -> Result<
    (Seq<(Seq<char>, Seq<char>, SharedSettings)>, SharedSettings),
    Seq<char>,
> {
    match root {
        ConfigValue::Table(t) => match lookup(t@, "files"@) {
            None => Err("No files section in config file."@),
            Some(v) => if !(v is List) {
                Err("Files section in config is not a list."@)
            } else {
                let files = v->List_0@;
                match first_non_table(files, 0) {
                    Some(i) => Err(file_prefix(i as nat) + " is not a hash"@),
                    None => match files_upto(files, files.len() as int) {
                        Err(e) => Err(e),
                        Ok(fs) => match shared_field(t@) {
                            Err(e) => Err(e),
                            Ok(sh) => Ok((fs, sh)),
                        },
                    },
                }
            },
        },
        _ => Err("Base of the file not a hash."@),
    }
}

proof fn files_error_stays(files: Seq<ConfigValue>, k: int, n: int)
    requires
        0 <= k <= n,
        files_upto(files, k) is Err,
    ensures
        files_upto(files, n) == files_upto(files, k),
    decreases n - k,
{
    if n > k {
        files_error_stays(files, k, n - 1);
    }
}

/// Reads the settings out of the document with root `root`.
pub fn parse_config(root: &ConfigValue) -> (r: Result<Settings, String>)
    ensures
        match r {
            Ok(s) => {
                &&& settings_of(*root) is Ok
                &&& s.files_list@.len() == settings_of(*root)->Ok_0.0.len()
                &&& forall|j: int|
                    0 <= j < s.files_list@.len() ==> file_view(#[trigger] s.files_list@[j])
                        == settings_of(*root)->Ok_0.0[j]
                &&& s.other == settings_of(*root)->Ok_0.1
            },
            Err(e) => settings_of(*root) == Err::<
                (Seq<(Seq<char>, Seq<char>, SharedSettings)>, SharedSettings),
                Seq<char>,
            >(e@),
        },
{
    let t = match root {
        ConfigValue::Table(t) => t,
        _ => return Err("Base of the file not a hash.".to_owned()),
    };
    let files = match get(t, "files") {
        None => return Err("No files section in config file.".to_owned()),
        Some(ConfigValue::List(files)) => files,
        Some(_) => return Err("Files section in config is not a list.".to_owned()),
    };
    let mut i: usize = 0;
    while i < files.len()
        invariant
            i <= files@.len(),
            first_non_table(files@, 0) == first_non_table(files@, i as int),
            *root == ConfigValue::Table(*t),
            lookup(t@, "files"@) == Some(ConfigValue::List(*files)),
            forall|j: int| 0 <= j < i ==> (#[trigger] files@[j]) is Table,
        decreases files@.len() - i,
    {
        let is_table = match &files[i] {
            ConfigValue::Table(_) => true,
            _ => false,
        };
        if !is_table {
            return Err(file_message(i, " is not a hash"));
        }
        i = i + 1;
    }
    let mut list: Vec<FileWatch> = Vec::new();
    let mut k: usize = 0;
    while k < files.len()
        invariant
            k <= files@.len(),
            forall|j: int| 0 <= j < files@.len() ==> (#[trigger] files@[j]) is Table,
            files_upto(files@, k as int) is Ok,
            files_upto(files@, k as int)->Ok_0.len() == k,
            first_non_table(files@, 0) is None,
            *root == ConfigValue::Table(*t),
            lookup(t@, "files"@) == Some(ConfigValue::List(*files)),
            list@.len() == k,
            forall|j: int|
                0 <= j < k ==> file_view(#[trigger] list@[j]) == files_upto(
                    files@,
                    k as int,
                )->Ok_0[j],
        decreases files@.len() - k,
    {
        match &files[k] {
            ConfigValue::Table(ft) => {
                match get_file(ft, k) {
                    Ok(f) => {
                        list.push(f);
                    },
                    Err(e) => {
                        proof {
                            files_error_stays(files@, (k + 1) as int, files@.len() as int);
                        }
                        return Err(e);
                    },
                }
            },
            _ => {},
        }
        k = k + 1;
    }
    let other = get_shared(t)?;
    Ok(Settings { files_list: list, other })
}

/// Whether no two entries of table `t` have the same text as key.
pub open spec fn distinct_keys(t: Seq<ConfigEntry>) -> bool {
    forall|i: int, j: int, k: Seq<char>|
        0 <= i < t.len() && 0 <= j < t.len() && #[trigger] has_key(t[i], k) && #[trigger] has_key(
            t[j],
            k,
        ) ==> i == j
}

/// Whether tables `t1` and `t2` hold the same entries, in any order.
pub open spec fn same_entries(t1: Seq<ConfigEntry>, t2: Seq<ConfigEntry>) -> bool {
    &&& forall|i: int| 0 <= i < t1.len() ==> t2.contains(#[trigger] t1[i])
    &&& forall|j: int| 0 <= j < t2.len() ==> t1.contains(#[trigger] t2[j])
}

proof fn find_from_first(t: Seq<ConfigEntry>, k: Seq<char>, i: int)
    requires
        0 <= i,
    ensures
        match find_from(t, k, i) {
            Some(j) => i <= j < t.len() && has_key(t[j], k),
            None => forall|m: int| i <= m < t.len() ==> !has_key(#[trigger] t[m], k),
        },
    decreases t.len() - i,
{
    if i < t.len() && !has_key(t[i], k) {
        find_from_first(t, k, i + 1);
    }
}

proof fn lookup_at(t: Seq<ConfigEntry>, k: Seq<char>, j: int)
    requires
        distinct_keys(t),
        0 <= j < t.len(),
        has_key(t[j], k),
    ensures
        lookup(t, k) == Some(t[j].value),
{
    find_from_first(t, k, 0);
    let f = find_from(t, k, 0);
    if f is Some {
        let i = f->0;
        assert(i == j);
    }
}

proof fn lookups_agree(t1: Seq<ConfigEntry>, t2: Seq<ConfigEntry>)
    requires
        distinct_keys(t1),
        distinct_keys(t2),
        same_entries(t1, t2),
    ensures
        forall|k: Seq<char>| #[trigger] lookup(t1, k) == lookup(t2, k),
{
    assert forall|k: Seq<char>| #[trigger] lookup(t1, k) == lookup(t2, k) by {
        find_from_first(t1, k, 0);
        find_from_first(t2, k, 0);
        let f1 = find_from(t1, k, 0);
        let f2 = find_from(t2, k, 0);
        if f1 is Some {
            let i = f1->0;
            assert(t2.contains(t1[i]));
            let m = choose|m: int| 0 <= m < t2.len() && t2[m] == t1[i];
            lookup_at(t2, k, m);
        } else if f2 is Some {
            let m = f2->0;
            assert(t1.contains(t2[m]));
            let i = choose|i: int| 0 <= i < t1.len() && t1[i] == t2[m];
            assert(!has_key(t1[i], k));
        }
    }
}

proof fn jobs_agree(t1: Seq<ConfigEntry>, t2: Seq<ConfigEntry>)
    requires
        forall|k: Seq<char>| #[trigger] lookup(t1, k) == lookup(t2, k),
    ensures
        jobs_field(t1) == jobs_field(t2),
        shared_field(t1) == shared_field(t2),
{
    assert(size_field(t1) == size_field(t2));
    assert(real_field(t1, "blur"@) == real_field(t2, "blur"@));
    assert(real_field(t1, "contrast"@) == real_field(t2, "contrast"@));
    assert(i32_field(t1, "sharpen"@) == i32_field(t2, "sharpen"@));
    assert(i32_field(t1, "brighten"@) == i32_field(t2, "brighten"@));
    assert(i32_field(t1, "huerotate"@) == i32_field(t2, "huerotate"@));
    assert(bool_field(t1, "flipv"@) == bool_field(t2, "flipv"@));
    assert(bool_field(t1, "fliph"@) == bool_field(t2, "fliph"@));
    assert(bool_field(t1, "rotate90"@) == bool_field(t2, "rotate90"@));
    assert(bool_field(t1, "rotate180"@) == bool_field(t2, "rotate180"@));
    assert(bool_field(t1, "rotate270"@) == bool_field(t2, "rotate270"@));
    assert(bool_field(t1, "grayscale"@) == bool_field(t2, "grayscale"@));
    assert(bool_field(t1, "invert"@) == bool_field(t2, "invert"@));
    assert(filter_field(t1) == filter_field(t2));
}

proof fn files_agree(t1: Seq<ConfigEntry>, t2: Seq<ConfigEntry>, i: nat)
    requires
        forall|k: Seq<char>| #[trigger] lookup(t1, k) == lookup(t2, k),
        shared_field(t1) == shared_field(t2),
    ensures
        file_field(t1, i) == file_field(t2, i),
{
    assert(lookup(t1, "path"@) == lookup(t2, "path"@));
    assert(lookup(t1, "output"@) == lookup(t2, "output"@));
}

/// With distinct keys, the order of a table's entries does not matter: two
/// tables with the same entries give every key the same value, and so the
/// same jobs, shared settings and watched file, and the same settings as the
/// root of a document.
pub proof fn key_order_irrelevant(t1: Vec<ConfigEntry>, t2: Vec<ConfigEntry>)
    requires
        distinct_keys(t1@),
        distinct_keys(t2@),
        same_entries(t1@, t2@),
    ensures
        forall|k: Seq<char>| #[trigger] lookup(t1@, k) == lookup(t2@, k),
        jobs_field(t1@) == jobs_field(t2@),
        shared_field(t1@) == shared_field(t2@),
        forall|i: nat| #[trigger] file_field(t1@, i) == file_field(t2@, i),
        settings_of(ConfigValue::Table(t1)) == settings_of(ConfigValue::Table(t2)),
{
    lookups_agree(t1@, t2@);
    jobs_agree(t1@, t2@);
    assert forall|i: nat| #[trigger] file_field(t1@, i) == file_field(t2@, i) by {
        files_agree(t1@, t2@, i);
    }
    assert(lookup(t1@, "files"@) == lookup(t2@, "files"@));
}

} // verus!

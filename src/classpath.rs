use vstd::prelude::*;
use vstd::string::StringExecFns;

verus! {

/// Relies on `str::split`: the pieces of `s` between occurrences of `sep`, in order.
#[verifier::external_body]
fn text_split(s: &str, sep: char) -> (r: Vec<String>)
    ensures
        r@.len() >= 1,
        joined(r@.map_values(|p: String| p@), sep) == s@,
        forall|i: int| 0 <= i < r@.len() ==> !(#[trigger] r@[i])@.contains(sep),
{
    s.split(sep).map(|p| p.to_string()).collect()
}

/// Relies on `str::strip_suffix`: what precedes `suffix` when `s` ends with it.
#[verifier::external_body]
fn text_strip_suffix(s: &str, suffix: &str) -> (r: Option<String>)
    ensures
        r is Some <==> ends_with(s@, suffix@),
        r matches Some(p) ==> p@ + suffix@ == s@,
{
    s.strip_suffix(suffix).map(|p| p.to_string())
}

/// Relies on `str::replace`: every `.` of `s` becomes `/`.
#[verifier::external_body]
fn text_dots_to_slashes(s: &str) -> (r: String)
    ensures
        r@ == s@.map_values(|c: char| if c == '.' { '/' } else { c }),
{
    s.replace('.', "/")
}

/// The name under which a class is looked up: its dotted name with `/` between packages.
pub fn internal_name(class: &str) -> (r: String)
    ensures
        r@.len() == class@.len(),
        forall|i: int|
            0 <= i < class@.len() ==> r@[i] == if class@[i] == '.' {
                '/'
            } else {
                class@[i]
            },
{
    text_dots_to_slashes(class)
}

/// The pieces put back together, `sep` between each two.
pub open spec fn joined(pieces: Seq<Seq<char>>, sep: char) -> Seq<char>
    decreases pieces.len(),
{
    if pieces.len() == 0 {
        Seq::empty()
    } else if pieces.len() == 1 {
        pieces[0]
    } else {
        joined(pieces.drop_last(), sep) + seq![sep] + pieces.last()
    }
}

pub open spec fn ends_with(s: Seq<char>, x: Seq<char>) -> bool {
    s.len() >= x.len() && s.subrange(s.len() - x.len(), s.len() as int) == x
}

/// A path names an archive when it ends in .jar or .zip (in lower or upper case).
pub open spec fn is_archive_path(s: Seq<char>) -> bool {
    ends_with(s, ".jar"@) || ends_with(s, ".JAR"@) || ends_with(s, ".zip"@) || ends_with(s, ".ZIP"@)
}

pub open spec fn is_jar_name(s: Seq<char>) -> bool {
    ends_with(s, ".jar"@) || ends_with(s, ".JAR"@)
}

/// A directory whose class files lie under it by package path.
#[derive(Debug)]
pub struct DirEntry {
    pub abs_dir: String,
}

impl DirEntry {
    pub fn new(path: String) -> (r: DirEntry)
        ensures
            r.abs_dir == path,
    {
        DirEntry { abs_dir: path }
    }
}

/// A zip or jar archive whose members are class files named by package path.
#[derive(Debug)]
pub struct ZipEntry {
    pub abs_path: String,
}

impl ZipEntry {
    pub fn new(path: String) -> (r: ZipEntry)
        ensures
            r.abs_path == path,
    {
        ZipEntry { abs_path: path }
    }
}

/// A list of entries, searched in order.
#[derive(Debug)]
pub struct CompositeEntry {
    pub entries: Vec<Entry>,
}

/// One place to look for class files.
#[derive(Debug)]
pub enum Entry {
    Dir(DirEntry),
    Zip(ZipEntry),
    Composite(CompositeEntry),
    /// Every jar of a directory; the directory is listed when the entry is searched.
    Wildcard(String),
}

/// `e` is the entry that a path without `;` stands for.
pub open spec fn single_entry_for(e: Entry, path: Seq<char>) -> bool {
    if ends_with(path, "*"@) {
        e matches Entry::Wildcard(d) && d@ + "*"@ == path
    } else if is_archive_path(path) {
        e matches Entry::Zip(z) && z.abs_path@ == path
    } else {
        e matches Entry::Dir(d) && d.abs_dir@ == path
    }
}

fn single_entry(path: String) -> (r: Entry)
    ensures
        single_entry_for(r, path@),
{
    if let Some(dir) = text_strip_suffix(&path, "*") {
        return Entry::Wildcard(dir);
    }
    let archive = text_strip_suffix(&path, ".jar").is_some() || text_strip_suffix(&path, ".JAR").is_some()
        || text_strip_suffix(&path, ".zip").is_some() || text_strip_suffix(&path, ".ZIP").is_some();
    if archive {
        Entry::Zip(ZipEntry::new(path))
    } else {
        Entry::Dir(DirEntry::new(path))
    }
}

/// The entry for a classpath option: a `;`-separated list, a directory ending in `*`, an
/// archive, or a directory.
pub fn new_entry(path: String) -> (r: Entry)
    ensures
        entry_for(r, path@),
{
    let pieces = text_split(&path, ';');
    if pieces.len() > 1 {
        proof {
            let v = pieces@.map_values(|p: String| p@);
            let front = joined(v.drop_last(), ';');
            assert(joined(v, ';') == front + seq![';'] + v.last());
            assert((front + seq![';'] + v.last())[front.len() as int] == ';');
        }
        Entry::Composite(CompositeEntry::new(path))
    } else {
        proof {
            assert(pieces@.map_values(|p: String| p@).len() == 1);
        }
        single_entry(path)
    }
}

/// `c` holds one entry for each `;`-separated piece of `path`, in order.
pub open spec fn composite_for(c: CompositeEntry, path: Seq<char>) -> bool {
    exists|pieces: Seq<Seq<char>>|
        joined(pieces, ';') == path && pieces.len() == c.entries@.len() && forall|i: int|
            0 <= i < pieces.len() ==> !pieces[i].contains(';') && single_entry_for(
                #[trigger] c.entries@[i],
                pieces[i],
            )
}

impl CompositeEntry {
    pub fn new(path: String) -> (r: CompositeEntry)
        ensures
            composite_for(r, path@),
    {
        let pieces = text_split(&path, ';');
        let ghost views = pieces@.map_values(|p: String| p@);
        let mut entries: Vec<Entry> = Vec::new();
        let mut i: usize = 0;
        while i < pieces.len()
            invariant
                i <= pieces@.len(),
                views == pieces@.map_values(|p: String| p@),
                entries@.len() == i,
                forall|j: int| 0 <= j < i ==> single_entry_for(#[trigger] entries@[j], views[j]),
            decreases pieces@.len() - i,
        {
            let piece = pieces[i].clone();
            entries.push(single_entry(piece));
            i = i + 1;
        }
        let r = CompositeEntry { entries };
        assert(forall|j: int| 0 <= j < views.len() ==> !views[j].contains(';'));
        assert(joined(views, ';') == path@ && views.len() == r.entries@.len());
        r
    }

    /// The archives of a directory: one entry for each jar among the names listed in it,
    /// in the order of the listing.
    pub fn new_wildcard(dir: String, file_names: Vec<String>) -> (r: Self)
        ensures
            ({
                let jars = jar_names(file_names@.map_values(|n: String| n@));
                &&& r.entries@.len() == jars.len()
                &&& forall|i: int|
                    0 <= i < jars.len() ==> (#[trigger] r.entries@[i] matches Entry::Zip(z) && z.abs_path@
                        == dir@ + "/"@ + jars[i])
            }),
    {
        let ghost views = file_names@.map_values(|n: String| n@);
        let mut entries: Vec<Entry> = Vec::new();
        let mut j: usize = 0;
        while j < file_names.len()
            invariant
                j <= file_names@.len(),
                views == file_names@.map_values(|n: String| n@),
                entries@.len() == jar_names(views.subrange(0, j as int)).len(),
                forall|i: int|
                    0 <= i < entries@.len() ==> (#[trigger] entries@[i] matches Entry::Zip(z) && z.abs_path@
                        == dir@ + "/"@ + jar_names(views.subrange(0, j as int))[i]),
            decreases file_names@.len() - j,
        {
            let ghost prev = jar_names(views.subrange(0, j as int));
            assert(views.subrange(0, j + 1).drop_last() =~= views.subrange(0, j as int));
            assert(views.subrange(0, j + 1).last() == file_names@[j as int]@);
            let name = &file_names[j];
            if text_strip_suffix(name, ".jar").is_some() || text_strip_suffix(name, ".JAR").is_some() {
                let mut path = dir.clone();
                path.append("/");
                path.append(name.as_str());
                assert(path@ == dir@ + "/"@ + file_names@[j as int]@);
                entries.push(Entry::Zip(ZipEntry::new(path)));
                assert(jar_names(views.subrange(0, j + 1)) == prev.push(file_names@[j as int]@));
            } else {
                assert(jar_names(views.subrange(0, j + 1)) == prev);
            }
            j = j + 1;
        }
        assert(views.subrange(0, file_names@.len() as int) =~= views);
        CompositeEntry { entries }
    }
}

/// The names among `names` that end in .jar or .JAR, in order.
pub open spec fn jar_names(names: Seq<Seq<char>>) -> Seq<Seq<char>>
    decreases names.len(),
{
    if names.len() == 0 {
        Seq::empty()
    } else if is_jar_name(names.last()) {
        jar_names(names.drop_last()).push(names.last())
    } else {
        jar_names(names.drop_last())
    }
}

/// Where a class file may be found.
#[derive(Debug)]
pub enum Source {
    /// A file at this path.
    File(String),
    /// A member of a zip or jar archive.
    Member { archive: String, member: String },
    /// The jars of a directory, once it has been listed (see `CompositeEntry::new_wildcard`).
    Listing { dir: String },
}

pub open spec fn source_view(s: Source) -> (u8, Seq<char>, Seq<char>) {
    match s {
        Source::File(p) => (0, p@, Seq::empty()),
        Source::Member { archive, member } => (1, archive@, member@),
        Source::Listing { dir } => (2, dir@, Seq::empty()),
    }
}

/// Where an entry that is not a list looks for the file `file`.
pub open spec fn leaf_sources(e: Entry, file: Seq<char>) -> Seq<(u8, Seq<char>, Seq<char>)> {
    match e {
        Entry::Dir(d) => seq![(0u8, d.abs_dir@ + "/"@ + file, Seq::empty())],
        Entry::Zip(z) => seq![(1u8, z.abs_path@, file)],
        Entry::Wildcard(d) => seq![(2u8, d@, Seq::empty())],
        Entry::Composite(_) => Seq::empty(),
    }
}

/// Where the members of a list look for the file `file`, in order.
pub open spec fn list_sources(entries: Seq<Entry>, file: Seq<char>) -> Seq<(u8, Seq<char>, Seq<char>)>
    decreases entries.len(),
{
    if entries.len() == 0 {
        Seq::empty()
    } else {
        list_sources(entries.drop_last(), file) + leaf_sources(entries.last(), file)
    }
}

/// Where an entry looks for the file `file`, in order; a list looks through its members.
pub open spec fn entry_sources(e: Entry, file: Seq<char>) -> Seq<(u8, Seq<char>, Seq<char>)> {
    match e {
        Entry::Composite(c) => list_sources(c.entries@, file),
        _ => leaf_sources(e, file),
    }
}

fn leaf_source(e: &Entry, file: &str, out: &mut Vec<Source>)
    ensures
        final(out)@.map_values(|s: Source| source_view(s)) == old(out)@.map_values(
            |s: Source| source_view(s),
        ) + leaf_sources(*e, file@),
{
    let ghost before = out@;
    match e {
        Entry::Dir(d) => {
            let mut path = d.abs_dir.clone();
            path.append("/");
            path.append(file);
            out.push(Source::File(path));
        },
        Entry::Zip(z) => {
            out.push(Source::Member { archive: z.abs_path.clone(), member: file.to_owned() });
        },
        Entry::Wildcard(d) => {
            out.push(Source::Listing { dir: d.clone() });
        },
        Entry::Composite(_) => {},
    }
    assert(out@.map_values(|s: Source| source_view(s)) =~= before.map_values(
        |s: Source| source_view(s),
    ) + leaf_sources(*e, file@));
}

fn entry_source(e: &Entry, file: &str, out: &mut Vec<Source>)
    ensures
        final(out)@.map_values(|s: Source| source_view(s)) == old(out)@.map_values(
            |s: Source| source_view(s),
        ) + entry_sources(*e, file@),
{
    match e {
        Entry::Composite(c) => {
            let ghost start = out@.map_values(|s: Source| source_view(s));
            let mut i: usize = 0;
            assert(start + Seq::<(u8, Seq<char>, Seq<char>)>::empty() =~= start);
            while i < c.entries.len()
                invariant
                    i <= c.entries@.len(),
                    out@.map_values(|s: Source| source_view(s)) == start + list_sources(
                        c.entries@.subrange(0, i as int),
                        file@,
                    ),
                decreases c.entries@.len() - i,
            {
                leaf_source(&c.entries[i], file, out);
                let ghost prev = list_sources(c.entries@.subrange(0, i as int), file@);
                let ghost next = c.entries@.subrange(0, i + 1);
                assert(next.drop_last() =~= c.entries@.subrange(0, i as int));
                assert(next.last() == c.entries@[i as int]);
                assert(start + prev + leaf_sources(c.entries@[i as int], file@) =~= start + (prev
                    + leaf_sources(c.entries@[i as int], file@)));
                i = i + 1;
            }
            assert(c.entries@.subrange(0, c.entries@.len() as int) =~= c.entries@);
        },
        _ => leaf_source(e, file, out),
    }
}

/// The classpath: bootstrap, extension and user entries, searched in that order.
#[derive(Debug)]
pub struct ClassPath {
    pub boot_classpath: Entry,
    pub ext_classpath: Entry,
    pub user_classpath: Entry,
}

/// `e` is the entry that the classpath option `path` stands for.
pub open spec fn entry_for(e: Entry, path: Seq<char>) -> bool {
    if path.contains(';') {
        e matches Entry::Composite(c) && composite_for(c, path)
    } else {
        single_entry_for(e, path)
    }
}

impl ClassPath {
    /// The classpath of a JRE directory and a user classpath option (`.` when empty).
    pub fn new(jre_dir: String, cp_option: String) -> (r: Self)
        ensures
            entry_for(r.boot_classpath, jre_dir@ + "/lib/*"@),
            entry_for(r.ext_classpath, jre_dir@ + "/lib/ext/*"@),
            cp_option@.len() > 0 ==> entry_for(r.user_classpath, cp_option@),
            cp_option@.len() == 0 ==> entry_for(r.user_classpath, "."@),
    {
        let mut boot = jre_dir.clone();
        boot.append("/lib/*");
        let mut ext = jre_dir.clone();
        ext.append("/lib/ext/*");
        let user = if cp_option.as_str().is_empty() {
            ".".to_owned()
        } else {
            cp_option
        };
        ClassPath {
            boot_classpath: new_entry(boot),
            ext_classpath: new_entry(ext),
            user_classpath: new_entry(user),
        }
    }

    /// Where to look for a class, given with `/` between package names, in search order;
    /// the first place that has the class file wins.
    pub fn read_class(&self, class_name: &str) -> (r: Vec<Source>)
        ensures
            r@.map_values(|s: Source| source_view(s)) == entry_sources(
                self.boot_classpath,
                class_name@ + ".class"@,
            ) + entry_sources(self.ext_classpath, class_name@ + ".class"@) + entry_sources(
                self.user_classpath,
                class_name@ + ".class"@,
            ),
    {
        let mut file = class_name.to_owned();
        file.append(".class");
        let mut out: Vec<Source> = Vec::new();
        assert(out@.map_values(|s: Source| source_view(s)) =~= Seq::empty());
        entry_source(&self.boot_classpath, file.as_str(), &mut out);
        entry_source(&self.ext_classpath, file.as_str(), &mut out);
        entry_source(&self.user_classpath, file.as_str(), &mut out);
        proof {
            let a = entry_sources(self.boot_classpath, file@);
            let b = entry_sources(self.ext_classpath, file@);
            let c = entry_sources(self.user_classpath, file@);
            assert(Seq::<(u8, Seq<char>, Seq<char>)>::empty() + a + b + c =~= a + b + c);
        }
        out
    }
}


/// The bytes of the member called `name` of the zip archive `archive`, if it has one.
pub uninterp spec fn zip_member(archive: Seq<u8>, name: Seq<char>) -> Option<Seq<u8>>;

/// Relies on `zip::ZipArchive::new`, `ZipArchive::by_name` and reading the member to its end:
/// the result depends on the archive's bytes and the member's name alone.
#[verifier::external_body]
fn zip_lookup(archive: &Vec<u8>, name: &str) -> (r: Option<Vec<u8>>)
    ensures
        r is None <==> zip_member(archive@, name@) is None,
        r matches Some(v) ==> zip_member(archive@, name@) == Some(v@),
{
    let mut zip = match zip::ZipArchive::new(std::io::Cursor::new(archive.as_slice())) {
        Ok(z) => z,
        Err(_) => return None,
    };
    let mut member = match zip.by_name(name) {
        Ok(m) => m,
        Err(_) => return None,
    };
    let mut data = Vec::new();
    match std::io::Read::read_to_end(&mut member, &mut data) {
        Ok(_) => Some(data),
        Err(_) => None,
    }
}

impl ZipEntry {
    /// Reads the class file `member` out of the bytes of this entry's archive: `None`
    /// when the archive cannot be read or has no such member.
    pub fn read_class(&self, archive: &Vec<u8>, member: &str) -> (r: Option<Vec<u8>>)
        ensures
            r is None <==> zip_member(archive@, member@) is None,
            r matches Some(v) ==> zip_member(archive@, member@) == Some(v@),
    {
        zip_lookup(archive, member)
    }
}

} // verus!

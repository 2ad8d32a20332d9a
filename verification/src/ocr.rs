//! The recognition fallback: from the page images that the rasterizer left
//! behind to the order in which they are recognized.

use vstd::prelude::*;
use vstd::set_lib::{lemma_int_range, lemma_map_size, lemma_subset_equality, set_int_range};
use crate::pagefile::{in_namespace, is_in_namespace, matches_page_pattern, page_number, page_number_of};
use crate::text::{render_signed, signed_decimal};

verus! {

/// How many seconds the rasterizer may run.
pub const RASTER_TIMEOUT_SECONDS: u64 = 600;

/// How the rasterizer is run.
#[derive(Debug, PartialEq, Eq)]
pub struct RasterCommand {
    /// The program.
    pub program: String,
    /// Its arguments, in order.
    pub arguments: Vec<String>,
    /// After how many seconds it is given up.
    pub timeout_seconds: u64,
}

/// What a rasterizer command is, as plain values.
pub struct RasterCommandView {
    pub program: Seq<char>,
    pub arguments: Seq<Seq<char>>,
    pub timeout_seconds: nat,
}

impl DeepView for RasterCommand {
    type V = RasterCommandView;

    open spec fn deep_view(&self) -> RasterCommandView {
        RasterCommandView {
            program: self.program@,
            arguments: self.arguments.deep_view(),
            timeout_seconds: self.timeout_seconds as nat,
        }
    }
}

/// The command that rasterizes every page of `source` at `dpi` dots per
/// inch into PNG images whose names begin with `prefix`: `pdftoppm`, the
/// source, `-r` and the resolution, the prefix, and `-png`.
pub open spec fn raster_command_of(source: Seq<char>, dpi: int, prefix: Seq<char>) -> RasterCommandView {
    RasterCommandView {
        program: seq!['p', 'd', 'f', 't', 'o', 'p', 'p', 'm'],
        arguments: seq![source, seq!['-', 'r'], signed_decimal(dpi), prefix, seq!['-', 'p', 'n', 'g']],
        timeout_seconds: RASTER_TIMEOUT_SECONDS as nat,
    }
}

/// Makes the command that rasterizes every page of `source` at `dpi` dots
/// per inch into images whose names begin with `prefix`.
pub fn raster_command(source: &str, dpi: i32, prefix: &str) -> (command: RasterCommand)
    ensures
        command.deep_view() == raster_command_of(source@, dpi as int, prefix@),
{
    proof {
        reveal_strlit("pdftoppm");
        reveal_strlit("-r");
        reveal_strlit("-png");
    }
    let program = String::from_str("pdftoppm");
    assert(program@ =~= seq!['p', 'd', 'f', 't', 'o', 'p', 'p', 'm']);
    let resolution = String::from_str("-r");
    assert(resolution@ =~= seq!['-', 'r']);
    let format = String::from_str("-png");
    assert(format@ =~= seq!['-', 'p', 'n', 'g']);
    let mut arguments: Vec<String> = Vec::new();
    arguments.push(String::from_str(source));
    arguments.push(resolution);
    arguments.push(render_signed(dpi));
    arguments.push(String::from_str(prefix));
    arguments.push(format);
    assert(arguments.deep_view() =~= raster_command_of(source@, dpi as int, prefix@).arguments);
    RasterCommand { program, arguments, timeout_seconds: RASTER_TIMEOUT_SECONDS }
}

/// The image of one rasterized page.
#[derive(Debug, PartialEq, Eq)]
pub struct PageImage {
    /// The page number read from the name of the image.
    pub number: u32,
    /// Where the image lies.
    pub path: String,
}

/// What a page image is, as plain values.
pub struct PageImageView {
    pub number: nat,
    pub path: Seq<char>,
}

impl DeepView for PageImage {
    type V = PageImageView;

    open spec fn deep_view(&self) -> PageImageView {
        PageImageView { number: self.number as nat, path: self.path@ }
    }
}

impl PageImage {
    /// A copy of the image.
    pub fn duplicate(&self) -> (copy: PageImage)
        ensures
            copy.deep_view() == self.deep_view(),
    {
        PageImage { number: self.number, path: self.path.clone() }
    }
}

/// `name` names a page image of the document with content hash `hash`: it
/// lies in the document's part of the working directory, ends in a hyphen,
/// digits and the image extension, and its number fits 32 bits.
pub open spec fn is_page_image_of(hash: Seq<char>, name: Seq<char>) -> bool {
    &&& in_namespace(hash, name)
    &&& matches_page_pattern(name)
    &&& page_number_of(name) <= u32::MAX
}

/// Every one of `names` names a page image of the document.
pub open spec fn all_page_images(hash: Seq<char>, names: Seq<Seq<char>>) -> bool {
    forall|i: int| 0 <= i < names.len() ==> is_page_image_of(hash, #[trigger] names[i])
}

/// `index` is the first of `names` that names no page image of the document.
pub open spec fn first_bad_name(hash: Seq<char>, names: Seq<Seq<char>>, index: int) -> bool {
    &&& 0 <= index < names.len()
    &&& !is_page_image_of(hash, names[index])
    &&& forall|k: int| 0 <= k < index ==> is_page_image_of(hash, #[trigger] names[k])
}

/// The image that `name` names.
pub open spec fn image_of(name: Seq<char>) -> PageImageView {
    PageImageView { number: page_number_of(name), path: name }
}

/// The images that `names` name, in the order of the names.
pub open spec fn images_of(names: Seq<Seq<char>>) -> Seq<PageImageView> {
    Seq::new(names.len(), |i: int| image_of(names[i]))
}

/// The first `upto` images carry page numbers from 1 to the number of all
/// images, and no two of them the same.
pub open spec fn in_sequence(images: Seq<PageImageView>, upto: int) -> bool {
    &&& forall|j: int| 0 <= j < upto ==> 1 <= (#[trigger] images[j]).number <= images.len()
    &&& forall|i: int, j: int|
        0 <= i < j < upto ==> (#[trigger] images[i]).number != (#[trigger] images[j]).number
}

/// The images are those of the pages 1 to n, one image each, in any order.
pub open spec fn is_page_sequence(images: Seq<PageImageView>) -> bool {
    in_sequence(images, images.len() as int)
}

/// `index` is the first image whose page number is out of range or was
/// seen before.
pub open spec fn first_out_of_sequence(images: Seq<PageImageView>, index: int) -> bool {
    &&& 0 <= index < images.len()
    &&& in_sequence(images, index)
    &&& !in_sequence(images, index + 1)
}

/// Where the image of page `number` stands among `images`.
pub open spec fn index_of_page(images: Seq<PageImageView>, number: int) -> int {
    choose|j: int| 0 <= j < images.len() && images[j].number == number
}

/// The images in page order: the image of page 1 first.
pub open spec fn arranged(images: Seq<PageImageView>) -> Seq<PageImageView> {
    Seq::new(images.len(), |k: int| images[index_of_page(images, k + 1)])
}

/// `plan` holds every one of `images` at the place of its page number.
pub open spec fn arranges(images: Seq<PageImageView>, plan: Seq<PageImageView>) -> bool {
    &&& plan.len() == images.len()
    &&& forall|j: int|
        0 <= j < images.len() ==> plan[(#[trigger] images[j]).number - 1] == images[j]
    &&& forall|k: int| 0 <= k < plan.len() ==> (#[trigger] plan[k]).number == k + 1
}

/// The paths of `plan` from place `from` on; none where `plan` is shorter.
pub open spec fn paths_from(plan: Seq<PageImageView>, from: int) -> Seq<Seq<char>> {
    if 0 <= from <= plan.len() {
        Seq::new((plan.len() - from) as nat, |i: int| plan[from + i].path)
    } else {
        Seq::empty()
    }
}

/// Those of `names` that lie in the document's part of the working directory.
pub open spec fn own_images(hash: Seq<char>, names: Seq<Seq<char>>) -> Seq<Seq<char>> {
    names.filter(|name: Seq<char>| in_namespace(hash, name))
}

/// Among the images of the pages 1 to n, one image each, every page from 1
/// to n has its image.
pub proof fn lemma_every_page_present(images: Seq<PageImageView>, number: int)
    requires
        is_page_sequence(images),
        1 <= number <= images.len(),
    ensures
        exists|j: int| 0 <= j < images.len() && images[j].number == number,
{
    let n = images.len() as int;
    let places = set_int_range(0, n);
    let numbers = set_int_range(1, n + 1);
    let number_at = |j: int| images[j].number as int;
    let found = places.map(number_at);
    lemma_int_range(0, n);
    lemma_int_range(1, n + 1);
    assert forall|a: int, b: int|
        places.contains(a) && places.contains(b) && #[trigger] number_at(a) == #[trigger] number_at(
            b,
        ) implies a == b by {
        if a < b {
            assert(images[a].number != images[b].number);
        } else if b < a {
            assert(images[b].number != images[a].number);
        }
    }
    lemma_map_size(places, found, number_at);
    assert forall|x: int| found.contains(x) implies numbers.contains(x) by {
        let j = choose|j: int| places.contains(j) && x == number_at(j);
        assert(1 <= images[j].number <= n);
    }
    lemma_subset_equality(found, numbers);
    assert(numbers.contains(number));
    assert(found.contains(number));
    let j = choose|j: int| places.contains(j) && number == number_at(j);
    assert(0 <= j < images.len() && images[j].number == number);
}

/// The images of the pages 1 to n, put in page order, are all there, each
/// at the place of its number.
pub proof fn lemma_arranged(images: Seq<PageImageView>)
    requires
        is_page_sequence(images),
    ensures
        arranges(images, arranged(images)),
{
    let plan = arranged(images);
    assert forall|k: int| 0 <= k < plan.len() implies (#[trigger] plan[k]).number == k + 1 by {
        lemma_every_page_present(images, k + 1);
    }
    assert forall|j: int| 0 <= j < images.len() implies plan[(#[trigger] images[j]).number - 1]
        == images[j] by {
        let k = images[j].number - 1;
        let found = index_of_page(images, k + 1);
        assert(0 <= found < images.len() && images[found].number == k + 1);
        if found < j {
            assert(images[found].number != images[j].number);
        } else if j < found {
            assert(images[j].number != images[found].number);
        }
    }
}

/// Reads the page number out of each name. All names must name page images
/// of the document with content hash `hash`; the first that does not is the
/// error.
pub fn discover(hash: &str, names: &Vec<String>) -> (r: Result<Vec<PageImage>, usize>)
    ensures
        match r {
            Ok(images) => {
                &&& all_page_images(hash@, names.deep_view())
                &&& images.deep_view() == images_of(names.deep_view())
            },
            Err(index) => first_bad_name(hash@, names.deep_view(), index as int),
        },
{
    let mut images: Vec<PageImage> = Vec::new();
    let mut i: usize = 0;
    while i < names.len()
        invariant
            i <= names.len(),
            images.len() == i,
            forall|k: int| 0 <= k < i ==> is_page_image_of(hash@, #[trigger] names.deep_view()[k]),
            forall|k: int|
                0 <= k < i ==> (#[trigger] images[k]).deep_view() == image_of(names.deep_view()[k]),
        decreases names.len() - i,
    {
        let name = &names[i];
        assert(name@ == names.deep_view()[i as int]);
        if !is_in_namespace(hash, name.as_str()) {
            return Err(i);
        }
        match page_number(name.as_str()) {
            Ok(number) => {
                images.push(PageImage { number, path: name.clone() });
            },
            Err(_) => {
                return Err(i);
            },
        }
        i += 1;
    }
    assert(images.deep_view() =~= images_of(names.deep_view()));
    Ok(images)
}

/// Puts the images in page order. They must be the images of the pages 1 to
/// n, one image each; the first whose number is out of range or was seen
/// before is the error.
pub fn arrange(images: &Vec<PageImage>) -> (r: Result<Vec<PageImage>, usize>)
    ensures
        match r {
            Ok(plan) => {
                &&& is_page_sequence(images.deep_view())
                &&& plan.deep_view() == arranged(images.deep_view())
                &&& arranges(images.deep_view(), plan.deep_view())
            },
            Err(index) => first_out_of_sequence(images.deep_view(), index as int),
        },
{
    let n = images.len();
    let ghost all = images.deep_view();
    let mut slots: Vec<Option<usize>> = Vec::new();
    while slots.len() < n
        invariant
            slots.len() <= n,
            forall|k: int| 0 <= k < slots.len() ==> slots[k] is None,
        decreases n - slots.len(),
    {
        slots.push(None);
    }
    let mut j: usize = 0;
    while j < n
        invariant
            j <= n,
            n == images.len(),
            slots.len() == n,
            all == images.deep_view(),
            in_sequence(all, j as int),
            forall|k: int|
                0 <= k < n ==> ((#[trigger] slots[k]) matches Some(i) ==> i < j && all[i as int].number
                    == k + 1),
            forall|i: int|
                0 <= i < j ==> slots[(#[trigger] all[i]).number - 1] == Some(i as usize),
        decreases n - j,
    {
        let number = images[j].number as usize;
        assert(number == all[j as int].number);
        if number == 0 || number > n {
            return Err(j);
        }
        let slot: Option<usize> = slots[number - 1];
        match slot {
            Some(earlier) => {
                assert(all[earlier as int].number == all[j as int].number);
                return Err(j);
            },
            None => {
                slots.set(number - 1, Some(j));
            },
        }
        j += 1;
    }
    let mut plan: Vec<PageImage> = Vec::new();
    let mut k: usize = 0;
    while k < n
        invariant
            k <= n,
            n == images.len(),
            slots.len() == n,
            plan.len() == k,
            all == images.deep_view(),
            is_page_sequence(all),
            forall|m: int|
                0 <= m < n ==> ((#[trigger] slots[m]) matches Some(i) ==> i < n && all[i as int].number
                    == m + 1),
            forall|i: int|
                0 <= i < n ==> slots[(#[trigger] all[i]).number - 1] == Some(i as usize),
            forall|m: int| 0 <= m < k ==> (#[trigger] plan[m]).deep_view() == arranged(all)[m],
        decreases n - k,
    {
        proof {
            lemma_every_page_present(all, k + 1);
            let found = index_of_page(all, k + 1);
            assert(0 <= found < n && all[found].number == k + 1);
            assert(slots[all[found].number - 1] == Some(found as usize));
        }
        let slot: Option<usize> = slots[k];
        let i = slot.unwrap();
        plan.push(images[i].duplicate());
        k += 1;
    }
    proof {
        assert(plan.deep_view() =~= arranged(all));
        lemma_arranged(all);
    }
    Ok(plan)
}

/// Why the page images of a document cannot be recognized in page order.
#[derive(Clone, Copy, Debug, PartialEq, Eq, Structural)]
pub enum PlanFault {
    /// There are more or fewer images than the document has pages.
    CountMismatch,
    /// The name at `index` names no page image of the document.
    BadName { index: usize },
    /// The image at `index` carries a page number that is out of range or
    /// that an earlier image carries too.
    OutOfSequence { index: usize },
}

/// The names are those of the page images of a document of `expected`
/// pages: one image for each page from 1 to `expected`, in any order.
pub open spec fn is_complete_listing(hash: Seq<char>, names: Seq<Seq<char>>, expected: nat) -> bool {
    &&& names.len() == expected
    &&& all_page_images(hash, names)
    &&& is_page_sequence(images_of(names))
}

/// Decides in which order the page images that were found are recognized:
/// in ascending order of the page numbers in their names, whatever the
/// order in which they were found. The images must be those of a document
/// of `expected` pages.
pub fn plan_pages(hash: &str, names: &Vec<String>, expected: usize) -> (r: Result<
    Vec<PageImage>,
    PlanFault,
>)
    ensures
        match r {
            Ok(plan) => {
                &&& is_complete_listing(hash@, names.deep_view(), expected as nat)
                &&& plan.deep_view() == arranged(images_of(names.deep_view()))
                &&& arranges(images_of(names.deep_view()), plan.deep_view())
            },
            Err(PlanFault::CountMismatch) => names.len() != expected,
            Err(PlanFault::BadName { index }) => {
                &&& names.len() == expected
                &&& first_bad_name(hash@, names.deep_view(), index as int)
            },
            Err(PlanFault::OutOfSequence { index }) => {
                &&& names.len() == expected
                &&& all_page_images(hash@, names.deep_view())
                &&& first_out_of_sequence(images_of(names.deep_view()), index as int)
            },
        },
{
    if names.len() != expected {
        return Err(PlanFault::CountMismatch);
    }
    match discover(hash, names) {
        Err(index) => Err(PlanFault::BadName { index }),
        Ok(images) => match arrange(&images) {
            Err(index) => Err(PlanFault::OutOfSequence { index }),
            Ok(plan) => Ok(plan),
        },
    }
}

/// Picks from `names` those that lie in the document's part of the working
/// directory, in their order.
pub fn select_own_images(hash: &str, names: &Vec<String>) -> (own: Vec<String>)
    ensures
        own.deep_view() == own_images(hash@, names.deep_view()),
        forall|i: int| 0 <= i < own.len() ==> in_namespace(hash@, #[trigger] own.deep_view()[i]),
{
    let ghost all = names.deep_view();
    let ghost mine = |name: Seq<char>| in_namespace(hash@, name);
    let mut own: Vec<String> = Vec::new();
    let mut i: usize = 0;
    proof {
        reveal(Seq::filter);
        assert(all.take(0) =~= Seq::<Seq<char>>::empty());
    }
    while i < names.len()
        invariant
            i <= names.len(),
            all == names.deep_view(),
            mine == (|name: Seq<char>| in_namespace(hash@, name)),
            own.deep_view() == all.take(i as int).filter(mine),
            forall|k: int| 0 <= k < own.len() ==> in_namespace(hash@, #[trigger] own.deep_view()[k]),
        decreases names.len() - i,
    {
        proof {
            reveal(Seq::filter);
            assert(all.take(i + 1).drop_last() =~= all.take(i as int));
            assert(all.take(i + 1).last() == names[i as int]@);
        }
        let ghost before = own.deep_view();
        if is_in_namespace(hash, names[i].as_str()) {
            own.push(names[i].clone());
            assert(own.deep_view() =~= before.push(names[i as int]@));
        }
        i += 1;
    }
    assert(all.take(names.len() as int) =~= all);
    own
}

/// The paths of the images of `plan` from place `from` on, in their order.
pub fn paths_after(plan: &Vec<PageImage>, from: usize) -> (paths: Vec<String>)
    ensures
        paths.deep_view() == paths_from(plan.deep_view(), from as int),
{
    let mut paths: Vec<String> = Vec::new();
    if from > plan.len() {
        assert(paths.deep_view() =~= paths_from(plan.deep_view(), from as int));
        return paths;
    }
    let mut i: usize = from;
    while i < plan.len()
        invariant
            from <= i <= plan.len(),
            paths.len() == i - from,
            forall|k: int| 0 <= k < paths.len() ==> (#[trigger] paths[k])@ == plan[from + k].path@,
        decreases plan.len() - i,
    {
        paths.push(plan[i].path.clone());
        i += 1;
    }
    assert(paths.deep_view() =~= paths_from(plan.deep_view(), from as int));
    paths
}

} // verus!

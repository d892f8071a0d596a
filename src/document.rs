//! A semi-structured document (the admitted object) and the typed extraction
//! of its container list.

use vstd::prelude::*;

verus! {

/// A JSON-shaped document. Numbers keep their textual form: nothing here
/// computes with them. An object keeps its fields in order; a lookup takes
/// the first field of that name.
#[derive(Debug)]
pub enum Document {
    Null,
    Bool(bool),
    Number(String),
    Text(String),
    Array(Vec<Document>),
    Object(Vec<(String, Document)>),
}

/// The value of the first field named `key` among `fields`.
pub open spec fn field_of(fields: Seq<(String, Document)>, key: Seq<char>) -> Option<Document>
    decreases fields.len(),
{
    if fields.len() == 0 {
        None
    } else if fields[0].0@ == key {
        Some(fields[0].1)
    } else {
        field_of(fields.drop_first(), key)
    }
}

/// The field `key` of `d`, when `d` is an object that has it.
pub open spec fn lookup(d: Document, key: Seq<char>) -> Option<Document> {
    match d {
        Document::Object(fields) => field_of(fields@, key),
        _ => None,
    }
}

/// The items of the `containers` array of a pod specification.
pub open spec fn containers_of(pod: Document) -> Option<Seq<Document>> {
    match lookup(pod, seq!['c', 'o', 'n', 't', 'a', 'i', 'n', 'e', 'r', 's']) {
        Some(Document::Array(items)) => Some(items@),
        _ => None,
    }
}

/// The image reference of a container, when it is a string.
pub open spec fn image_of(container: Document) -> Option<Seq<char>> {
    match lookup(container, seq!['i', 'm', 'a', 'g', 'e']) {
        Some(Document::Text(s)) => Some(s@),
        _ => None,
    }
}

/// The pod specification of an admitted object: its field `spec`.
pub open spec fn pod_spec_of(object: Document) -> Option<Document> {
    lookup(object, seq!['s', 'p', 'e', 'c'])
}

/// Whether two strings hold the same characters.
pub fn same_text(a: &str, b: &str) -> (r: bool)
    ensures
        r == (a@ == b@),
{
    let n = a.unicode_len();
    if n != b.unicode_len() {
        return false;
    }
    let mut i: usize = 0;
    while i < n
        invariant
            n == a@.len(),
            n == b@.len(),
            i <= n,
            forall|j: int| 0 <= j < i ==> a@[j] == b@[j],
        decreases n - i,
    {
        if a.get_char(i) != b.get_char(i) {
            return false;
        }
        i = i + 1;
    }
    assert(a@ =~= b@);
    true
}

impl Document {
    /// The field `key` of this document, when it is an object that has one
    /// (the first such field).
    pub fn get(&self, key: &str) -> (r: Option<&Document>)
        ensures
            match r {
                Some(v) => lookup(*self, key@) == Some(*v),
                None => lookup(*self, key@) is None,
            },
    {
        match self {
            Document::Object(fields) => {
                let mut i: usize = 0;
                assert(fields@.skip(0) =~= fields@);
                while i < fields.len()
                    invariant
                        i <= fields@.len(),
                        lookup(*self, key@) == field_of(fields@, key@),
                        field_of(fields@, key@) == field_of(fields@.skip(i as int), key@),
                    decreases fields.len() - i,
                {
                    proof {
                        assert(fields@.skip(i as int).drop_first() =~= fields@.skip(i as int + 1));
                    }
                    if same_text(fields[i].0.as_str(), key) {
                        assert(fields@.skip(i as int)[0] == fields@[i as int]);
                        return Some(&fields[i].1);
                    }
                    i = i + 1;
                }
                None
            },
            _ => None,
        }
    }

    /// The text of this document, when it is a string.
    pub fn as_str(&self) -> (r: Option<&String>)
        ensures
            r == (match *self {
                Document::Text(s) => Some(&s),
                _ => None,
            }),
    {
        match self {
            Document::Text(s) => Some(s),
            _ => None,
        }
    }

    /// The items of this document, when it is an array.
    pub fn as_array(&self) -> (r: Option<&Vec<Document>>)
        ensures
            r == (match *self {
                Document::Array(items) => Some(&items),
                _ => None,
            }),
    {
        match self {
            Document::Array(items) => Some(items),
            _ => None,
        }
    }
}

/// The pod specification of an admitted object: its field `spec`.
pub fn pod_spec(object: &Document) -> (r: Option<&Document>)
    ensures
        match r {
            Some(p) => pod_spec_of(*object) == Some(*p),
            None => pod_spec_of(*object) is None,
        },
{
    proof {
        reveal_strlit("spec");
        assert("spec"@ =~= seq!['s', 'p', 'e', 'c']);
    }
    object.get("spec")
}

/// The container list of a pod specification: its field `containers`, when
/// that is an array.
pub fn get_containers(pod: &Document) -> (r: Option<&Vec<Document>>)
    ensures
        match r {
            Some(items) => containers_of(*pod) == Some(items@),
            None => containers_of(*pod) is None,
        },
{
    proof {
        reveal_strlit("containers");
        assert("containers"@ =~= seq!['c', 'o', 'n', 't', 'a', 'i', 'n', 'e', 'r', 's']);
    }
    match pod.get("containers") {
        Some(c) => c.as_array(),
        None => None,
    }
}

/// The image reference of a container: its field `image`, when that is a
/// string.
pub fn get_image_name(container: &Document) -> (r: Option<&String>)
    ensures
        match r {
            Some(s) => image_of(*container) == Some(s@),
            None => image_of(*container) is None,
        },
{
    proof {
        reveal_strlit("image");
        assert("image"@ =~= seq!['i', 'm', 'a', 'g', 'e']);
    }
    match container.get("image") {
        Some(c) => c.as_str(),
        None => None,
    }
}

/// One entry of a pod's container list, narrowed to what the policy reads:
/// its image reference, absent when the entry has no string `image`.
pub struct ContainerSpec {
    pub image: Option<String>,
}

impl View for ContainerSpec {
    type V = Option<Seq<char>>;

    open spec fn view(&self) -> Option<Seq<char>> {
        match self.image {
            Some(s) => Some(s@),
            None => None,
        }
    }
}

/// The image references of a list of container entries.
pub open spec fn images_of(cs: Seq<ContainerSpec>) -> Seq<Option<Seq<char>>> {
    cs.map_values(|c: ContainerSpec| c@)
}

/// The image references of the containers that an admitted object declares
/// under `spec.containers`.
pub open spec fn declared_images(object: Document) -> Option<Seq<Option<Seq<char>>>> {
    match pod_spec_of(object) {
        Some(p) => match containers_of(p) {
            Some(items) => Some(items.map_values(|c: Document| image_of(c))),
            None => None,
        },
        None => None,
    }
}

impl ContainerSpec {
    /// The narrow view of one container entry.
    pub fn from_document(container: &Document) -> (r: ContainerSpec)
        ensures
            r@ == image_of(*container),
    {
        match get_image_name(container) {
            Some(s) => ContainerSpec { image: Some(s.clone()) },
            None => ContainerSpec { image: None },
        }
    }
}

/// Extracts the container list of an admitted object, in source order, when
/// it has a `spec.containers` array.
pub fn normalize(object: &Document) -> (r: Option<Vec<ContainerSpec>>)
    ensures
        match r {
            Some(v) => declared_images(*object) == Some(images_of(v@)),
            None => declared_images(*object) is None,
        },
{
    let items = match pod_spec(object) {
        Some(pod) => get_containers(pod),
        None => None,
    };
    match items {
        None => None,
        Some(items) => {
            let mut out: Vec<ContainerSpec> = Vec::new();
            let mut i: usize = 0;
            while i < items.len()
                invariant
                    i <= items@.len(),
                    out@.len() == i,
                    forall|j: int| 0 <= j < i ==> (#[trigger] out@[j])@ == image_of(items@[j]),
                decreases items.len() - i,
            {
                out.push(ContainerSpec::from_document(&items[i]));
                i = i + 1;
            }
            assert(images_of(out@) =~= items@.map_values(|c: Document| image_of(c)));
            Some(out)
        },
    }
}

} // verus!

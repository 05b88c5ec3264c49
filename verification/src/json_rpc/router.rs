//! The names from which a router of methods is generated.

use vstd::prelude::*;

verus! {

/// One method of an enumeration of methods: the identifier of its variant, and the segments of the
/// path of the namespace to which it belongs.
#[derive(Clone, Debug)]
pub struct MethodVariant {
    pub name: String,
    pub namespace: Vec<String>,
}

/// The names that the router needs for one method.
#[derive(Clone, Debug)]
pub struct Route {
    /// By which requests ask for it.
    pub method_name: String,
    /// The type of its parameters.
    pub request_type: String,
    /// The type of its result.
    pub response_type: String,
    /// The function that performs it.
    pub call_fn: String,
}

/// What `to_case` makes of a text in snake case.
pub uninterp spec fn snake_case(text: Seq<char>) -> Seq<char>;

/// What `to_case` makes of a text in camel case.
pub uninterp spec fn camel_case(text: Seq<char>) -> Seq<char>;

/// Calls `to_case` of `convert_case`'s `Casing` with `Case::Snake`. The result depends on the text
/// alone.
#[verifier::external_body]
fn to_snake_case(text: &String) -> (r: String)
    ensures
        r@ == snake_case(text@),
{
    convert_case::Casing::to_case(text, convert_case::Case::Snake)
}

/// Calls `to_case` of `convert_case`'s `Casing` with `Case::Camel`. The result depends on the text
/// alone.
#[verifier::external_body]
fn to_camel_case(text: &String) -> (r: String)
    ensures
        r@ == camel_case(text@),
{
    convert_case::Casing::to_case(text, convert_case::Case::Camel)
}

/// One attribute of a variant: its name, and, if its argument is a path, the segments of that path.
#[derive(Debug)]
pub struct VariantAttr {
    pub name: String,
    pub path: Option<Vec<String>>,
}

/// Why a variant belongs to no namespace.
#[derive(Clone, Copy, Debug, PartialEq, Eq, Structural)]
pub enum NamespaceError {
    /// Each variant must have an attribute `namespace` with a path.
    Missing,
    /// The path has no segments.
    Invalid,
}

/// What the texts of a list are.
pub open spec fn texts(list: Seq<String>) -> Seq<Seq<char>> {
    list.map_values(|s: String| s@)
}

/// The first attribute named `namespace` is the one with this index.
pub open spec fn is_namespace_attr(attrs: Seq<VariantAttr>, k: int) -> bool {
    &&& 0 <= k < attrs.len()
    &&& attrs[k].name@ == "namespace"@
    &&& forall|i: int| 0 <= i < k ==> (#[trigger] attrs[i]).name@ != "namespace"@
}

/// Copies of the texts.
fn copy_texts(list: &Vec<String>) -> (r: Vec<String>)
    ensures
        texts(r@) == texts(list@),
{
    let mut r: Vec<String> = Vec::new();
    let mut i: usize = 0;
    while i < list.len()
        invariant
            i <= list@.len(),
            r@.len() == i,
            forall|j: int| 0 <= j < i ==> (#[trigger] r@[j])@ == list@[j]@,
        decreases list@.len() - i,
    {
        r.push(list[i].clone());
        i = i + 1;
    }
    assert(texts(r@) =~= texts(list@));
    r
}

/// The segments of the path of the namespace to which a variant with these attributes belongs:
/// those of the first attribute named `namespace`. It is an error if there is none, if its argument
/// is not a path, or if that path is empty.
pub fn namespace_of(attrs: &Vec<VariantAttr>) -> (r: Result<Vec<String>, NamespaceError>)
    ensures
        match r {
            Ok(segments) => exists|k: int|
                {
                    &&& #[trigger] is_namespace_attr(attrs@, k)
                    &&& attrs@[k].path is Some
                    &&& texts(segments@) == texts(attrs@[k].path->0@)
                    &&& segments@.len() > 0
                },
            Err(NamespaceError::Missing) => forall|k: int| #[trigger]
                is_namespace_attr(attrs@, k) ==> attrs@[k].path is None,
            Err(NamespaceError::Invalid) => exists|k: int|
                {
                    &&& #[trigger] is_namespace_attr(attrs@, k)
                    &&& attrs@[k].path is Some
                    &&& attrs@[k].path->0@.len() == 0
                },
        },
{
    let name: String = "namespace".to_owned();
    let mut k: usize = 0;
    while k < attrs.len()
        invariant
            k <= attrs@.len(),
            name@ == "namespace"@,
            forall|i: int| 0 <= i < k ==> (#[trigger] attrs@[i]).name@ != "namespace"@,
        decreases attrs@.len() - k,
    {
        if attrs[k].name == name {
            assert(is_namespace_attr(attrs@, k as int));
            return match &attrs[k].path {
                Some(path) => if path.len() > 0 {
                    let segments: Vec<String> = copy_texts(path);
                    assert(texts(segments@).len() == texts(path@).len());
                    Ok(segments)
                } else {
                    Err(NamespaceError::Invalid)
                },
                None => {
                    assert forall|j: int| #[trigger] is_namespace_attr(attrs@, j) implies j
                        == k by {
                        if j < k {
                            assert(attrs@[j].name@ != "namespace"@);
                        } else if j > k {
                            assert(attrs@[k as int].name@ != "namespace"@);
                        }
                    }
                    Err(NamespaceError::Missing)
                },
            };
        }
        k = k + 1;
    }
    Err(NamespaceError::Missing)
}

/// What a route consists of.
pub struct RouteView {
    pub method_name: Seq<char>,
    pub request_type: Seq<char>,
    pub response_type: Seq<char>,
    pub call_fn: Seq<char>,
}

impl View for Route {
    type V = RouteView;

    open spec fn view(&self) -> RouteView {
        RouteView {
            method_name: self.method_name@,
            request_type: self.request_type@,
            response_type: self.response_type@,
            call_fn: self.call_fn@,
        }
    }
}

/// The names for a method, given its own name and the names in the cases that are needed. The
/// method name is that of the namespace, an underscore, and that of the variant.
pub open spec fn spec_route(
    name: Seq<char>,
    snake_namespace: Seq<char>,
    camel_name: Seq<char>,
    snake_name: Seq<char>,
) -> RouteView {
    RouteView {
        method_name: snake_namespace + "_"@ + camel_name,
        request_type: name + "Request"@,
        response_type: name + "Response"@,
        call_fn: snake_name + "_call"@,
    }
}

/// The names for a method.
pub open spec fn route_of(variant: MethodVariant) -> RouteView {
    spec_route(
        variant.name@,
        snake_case(variant.namespace@.last()@),
        camel_case(variant.name@),
        snake_case(variant.name@),
    )
}

/// The names for a method, given its own name and the names in the cases that are needed.
pub fn route_from_names(
    name: &String,
    snake_namespace: &String,
    camel_name: &String,
    snake_name: &String,
) -> (r: Route)
    ensures
        r@ == spec_route(name@, snake_namespace@, camel_name@, snake_name@),
{
    Route {
        method_name: snake_namespace.clone().concat("_").concat(camel_name.as_str()),
        request_type: name.clone().concat("Request"),
        response_type: name.clone().concat("Response"),
        call_fn: snake_name.clone().concat("_call"),
    }
}

/// The names for a method, which must belong to a namespace.
pub fn route(variant: &MethodVariant) -> (r: Route)
    requires
        variant.namespace@.len() > 0,
    ensures
        r@ == route_of(*variant),
{
    let namespace = &variant.namespace[variant.namespace.len() - 1];
    route_from_names(
        &variant.name,
        &to_snake_case(namespace),
        &to_camel_case(&variant.name),
        &to_snake_case(&variant.name),
    )
}

/// The routes of an enumeration of methods, all of which must belong to a namespace.
pub fn routes(variants: &Vec<MethodVariant>) -> (r: Vec<Route>)
    requires
        forall|i: int|
            0 <= i < variants@.len() ==> (#[trigger] variants@[i]).namespace@.len() > 0,
    ensures
        r@.len() == variants@.len(),
        forall|i: int| 0 <= i < r@.len() ==> (#[trigger] r@[i])@ == route_of(variants@[i]),
{
    let mut r: Vec<Route> = Vec::new();
    let mut i: usize = 0;
    while i < variants.len()
        invariant
            i <= variants@.len(),
            forall|j: int|
                0 <= j < variants@.len() ==> (#[trigger] variants@[j]).namespace@.len() > 0,
            r@.len() == i,
            forall|j: int| 0 <= j < i ==> (#[trigger] r@[j])@ == route_of(variants@[j]),
        decreases variants@.len() - i,
    {
        r.push(route(&variants[i]));
        i = i + 1;
    }
    r
}

/// The route that a request takes: the first one whose method name is the one asked for, if there
/// is one.
pub fn find_route(routes: &Vec<Route>, method: &String) -> (r: Option<usize>)
    ensures
        match r {
            Some(k) => {
                &&& k < routes@.len()
                &&& routes@[k as int]@.method_name == method@
                &&& forall|i: int| 0 <= i < k ==> (#[trigger] routes@[i])@.method_name != method@
            },
            None => forall|i: int|
                0 <= i < routes@.len() ==> (#[trigger] routes@[i])@.method_name != method@,
        },
{
    let mut k: usize = 0;
    while k < routes.len()
        invariant
            k <= routes@.len(),
            forall|i: int| 0 <= i < k ==> (#[trigger] routes@[i])@.method_name != method@,
        decreases routes@.len() - k,
    {
        if routes[k].method_name == *method {
            return Some(k);
        }
        k = k + 1;
    }
    None
}

} // verus!

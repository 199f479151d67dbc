//! XML elements, as `simple_xml_builder` holds them.
use simple_xml_builder::XMLElement;
use vstd::prelude::*;

verus! {

/// `simple_xml_builder::XMLElement`, carried as an opaque value.
#[verifier::external_type_specification]
#[verifier::external_body]
pub struct ExXMLElement(XMLElement);

/// What an XML element holds: its tag, its attributes as they were given, its
/// children in order, and its text where it has text in place of children.
pub struct XmlView {
    pub tag: Seq<char>,
    pub attributes: Map<Seq<char>, Seq<char>>,
    pub children: Seq<XmlView>,
    pub text: Option<Seq<char>>,
}

/// The contents of an XML element.
pub uninterp spec fn xml_view(element: XMLElement) -> XmlView;

/// Calls `XMLElement::new`: the new element has the given tag and is empty.
#[verifier::external_body]
pub(crate) fn xml_element(tag: String) -> (element: XMLElement)
    ensures
        xml_view(element) == (XmlView {
            tag: tag@,
            attributes: Map::empty(),
            children: Seq::empty(),
            text: None,
        }),
{
    XMLElement::new(tag)
}

/// Calls `XMLElement::add_attribute`: the attribute gets the given value, whether
/// or not it had one before, and nothing else changes. The order in which the
/// attributes are written out is left unsaid.
#[verifier::external_body]
pub(crate) fn xml_add_attribute(element: &mut XMLElement, key: &str, value: &str)
    ensures
        xml_view(*final(element)) == (XmlView {
            attributes: xml_view(*old(element)).attributes.insert(key@, value@),
            ..xml_view(*old(element))
        }),
{
    element.add_attribute(key, value)
}

/// Calls `XMLElement::add_child`: the child is placed behind the children that
/// are there. The call panics on an element that holds text.
#[verifier::external_body]
pub(crate) fn xml_add_child(element: &mut XMLElement, child: XMLElement)
    requires
        xml_view(*old(element)).text is None,
    ensures
        xml_view(*final(element)) == (XmlView {
            children: xml_view(*old(element)).children.push(xml_view(child)),
            ..xml_view(*old(element))
        }),
{
    element.add_child(child)
}

} // verus!

//! Writing an HTML element around markup that is already rendered.

use crate::text::str_equal;
use vstd::prelude::*;
use vstd::string::*;

verus! {

/// An element to render: its attributes, each written out in full, its tag
/// name, and the markup inside it, if any.
#[derive(Clone)]
pub struct WithAttr<'a>(pub &'a [&'static str], pub &'static str, pub Option<String>);

/// Whether `tag` names an element that has no closing tag.
pub open spec fn is_void_element(tag: Seq<char>) -> bool {
    ||| tag == "area"@
    ||| tag == "base"@
    ||| tag == "br"@
    ||| tag == "col"@
    ||| tag == "embed"@
    ||| tag == "hr"@
    ||| tag == "img"@
    ||| tag == "input"@
    ||| tag == "link"@
    ||| tag == "meta"@
    ||| tag == "param"@
    ||| tag == "source"@
    ||| tag == "track"@
    ||| tag == "wbr"@
}

/// The first `count` of `parts` with one space between neighbours.
pub open spec fn joined(parts: Seq<&'static str>, count: int) -> Seq<char>
    decreases count,
{
    if count <= 0 {
        Seq::empty()
    } else if count == 1 {
        parts[0]@
    } else {
        joined(parts, count - 1) + " "@ + parts[count - 1]@
    }
}

/// Whether `tag` names an element that has no closing tag.
pub fn names_void_element(tag: &str) -> (void: bool)
    ensures
        void == is_void_element(tag@),
{
    str_equal(tag, "area") || str_equal(tag, "base") || str_equal(tag, "br") || str_equal(
        tag,
        "col",
    ) || str_equal(tag, "embed") || str_equal(tag, "hr") || str_equal(tag, "img") || str_equal(
        tag,
        "input",
    ) || str_equal(tag, "link") || str_equal(tag, "meta") || str_equal(tag, "param")
        || str_equal(tag, "source") || str_equal(tag, "track") || str_equal(tag, "wbr")
}

impl<'a> WithAttr<'a> {
    /// The markup inside the element, empty where there is none.
    pub open spec fn inner(&self) -> Seq<char> {
        match self.2 {
            Some(markup) => markup@,
            None => Seq::empty(),
        }
    }

    /// The opening tag: the name, a space, the attributes with a space
    /// between neighbours.
    pub open spec fn opening(&self) -> Seq<char> {
        "<"@ + self.1@ + " "@ + joined(self.0@, self.0@.len() as int) + ">"@
    }

    /// The element written out. An element without a closing tag gets ` />`
    /// after its opening tag, and its inner markup after that; any other
    /// element gets its inner markup and then its closing tag.
    pub open spec fn markup(&self) -> Seq<char> {
        if is_void_element(self.1@) {
            self.opening() + " />"@ + self.inner()
        } else {
            self.opening() + self.inner() + "</"@ + self.1@ + ">"@
        }
    }

    /// Appends the attributes to `buffer`, one space between neighbours.
    fn write_attributes(&self, buffer: &mut String)
        ensures
            final(buffer)@ == old(buffer)@ + joined(self.0@, self.0@.len() as int),
    {
        let ghost before = buffer@;
        let mut i: usize = 0;
        while i < self.0.len()
            invariant
                i <= self.0@.len(),
                buffer@ == before + joined(self.0@, i as int),
            decreases self.0@.len() - i,
        {
            if i > 0 {
                buffer.append(" ");
            }
            buffer.append(self.0[i]);
            i += 1;
            assert(buffer@ =~= before + joined(self.0@, i as int));
        }
    }

    /// Appends the element to `buffer`.
    pub fn render_to(&self, buffer: &mut String)
        ensures
            final(buffer)@ == old(buffer)@ + self.markup(),
    {
        let ghost before = buffer@;
        buffer.append("<");
        buffer.append(self.1);
        buffer.append(" ");
        self.write_attributes(buffer);
        buffer.append(">");
        assert(buffer@ =~= before + self.opening());
        if names_void_element(self.1) {
            buffer.append(" />");
            if let Some(markup) = &self.2 {
                buffer.append(markup.as_str());
            }
        } else {
            if let Some(markup) = &self.2 {
                buffer.append(markup.as_str());
            }
            buffer.append("</");
            buffer.append(self.1);
            buffer.append(">");
        }
        assert(buffer@ =~= before + self.markup());
    }

    /// The element as a string of its own.
    pub fn render(&self) -> (markup: String)
        ensures
            markup@ == self.markup(),
    {
        let mut buffer = String::new();
        self.render_to(&mut buffer);
        assert(buffer@ =~= self.markup());
        buffer
    }
}

} // verus!

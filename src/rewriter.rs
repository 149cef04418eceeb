use vstd::prelude::*;

verus! {

/// The message of an error raised by a content handler.
#[derive(Clone, Debug, PartialEq, Eq)]
pub struct HandlerJsErrorWrap(pub String);

impl HandlerJsErrorWrap {
    pub fn new(message: &str) -> (r: HandlerJsErrorWrap)
        ensures
            r.0@ == message@,
    {
        broadcast use vstd::string::to_string_from_display_ensures_for_str;
        HandlerJsErrorWrap(message.to_string())
    }

    pub fn message(&self) -> (r: &str)
        ensures
            r@ == self.0@,
    {
        self.0.as_str()
    }
}

/// Collects content handlers: element handlers keyed by a selector, and
/// document handlers, in the order they were registered.
pub struct HTMLRewriter<H> {
    el_handlers: Vec<(String, H)>,
    doc_handlers: Vec<H>,
}

pub open spec fn selector_entry<H>(e: (String, H)) -> (Seq<char>, H) {
    (e.0@, e.1)
}

impl<H> HTMLRewriter<H> {
    /// The element handlers as (selector, handler) pairs, oldest first.
    pub closed spec fn element_handlers(&self) -> Seq<(Seq<char>, H)> {
        self.el_handlers@.map_values(|e: (String, H)| selector_entry(e))
    }

    /// The document handlers, oldest first.
    pub closed spec fn document_handlers(&self) -> Seq<H> {
        self.doc_handlers@
    }

    pub fn new() -> (r: HTMLRewriter<H>)
        ensures
            r.element_handlers() == Seq::<(Seq<char>, H)>::empty(),
            r.document_handlers() == Seq::<H>::empty(),
    {
        let r = HTMLRewriter { el_handlers: Vec::new(), doc_handlers: Vec::new() };
        assert(r.element_handlers() =~= Seq::<(Seq<char>, H)>::empty());
        r
    }

    /// Registers `h` for the elements that `selector` matches.
    pub fn on(&mut self, selector: &str, h: H)
        ensures
            final(self).element_handlers() == old(self).element_handlers().push((selector@, h)),
            final(self).document_handlers() == old(self).document_handlers(),
    {
        broadcast use vstd::string::to_string_from_display_ensures_for_str;
        let s = selector.to_string();
        self.el_handlers.push((s, h));
        assert(self.element_handlers() =~= old(self).element_handlers().push((selector@, h)));
    }

    /// Registers `h` for the document as a whole.
    pub fn on_document(&mut self, h: H)
        ensures
            final(self).document_handlers() == old(self).document_handlers().push(h),
            final(self).element_handlers() == old(self).element_handlers(),
    {
        self.doc_handlers.push(h);
    }

    pub fn element_handler_count(&self) -> (r: usize)
        ensures
            r == self.element_handlers().len(),
    {
        self.el_handlers.len()
    }

    pub fn document_handler_count(&self) -> (r: usize)
        ensures
            r == self.document_handlers().len(),
    {
        self.doc_handlers.len()
    }

    /// The selector of the `i`-th element handler.
    pub fn selector(&self, i: usize) -> (r: &str)
        requires
            i < self.element_handlers().len(),
        ensures
            r@ == self.element_handlers()[i as int].0,
    {
        self.el_handlers[i].0.as_str()
    }
}

} // verus!

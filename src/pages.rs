//! The pages the server renders and the placeholder posts behind them.
use crate::text::{escape_html, html_escape, time_ordered_uuid, uuid_string, uuid_text};
use vstd::prelude::*;

verus! {

/// The placeholder body text shared by every post.
pub const LOREM_IPSUM: &'static str = "Lorem ipsum dolor sit amet, consectetur adipiscing elit, sed do eiusmod tempor incididunt ut labore et dolore magna aliqua. Et ultrices neque ornare aenean. Sit amet volutpat consequat mauris nunc congue. Nunc scelerisque viverra mauris in. Tempus imperdiet nulla malesuada pellentesque elit eget gravida cum. Eget nulla facilisi etiam dignissim diam quis enim lobortis scelerisque. Viverra accumsan in nisl nisi scelerisque. Feugiat sed lectus vestibulum mattis. Mi tempus imperdiet nulla malesuada. Leo vel fringilla est ullamcorper eget. Cursus sit amet dictum sit amet justo. Magna eget est lorem ipsum dolor sit amet. Fermentum et sollicitudin ac orci phasellus egestas tellus. Cursus metus aliquam eleifend mi in. Luctus venenatis lectus magna fringilla urna porttitor rhoncus dolor purus.

Tempor orci dapibus ultrices in iaculis nunc sed augue. Mi sit amet mauris commodo quis imperdiet massa tincidunt nunc. Pharetra convallis posuere morbi leo urna molestie. Erat nam at lectus urna duis convallis convallis tellus. Odio eu feugiat pretium nibh. Sapien pellentesque habitant morbi tristique senectus et. Urna cursus eget nunc scelerisque viverra mauris in aliquam. Commodo quis imperdiet massa tincidunt nunc pulvinar sapien et ligula. Tellus orci ac auctor augue mauris augue. Cras ornare arcu dui vivamus arcu felis bibendum. Faucibus interdum posuere lorem ipsum dolor. Et malesuada fames ac turpis egestas sed tempus. Ipsum dolor sit amet consectetur adipiscing. Mi bibendum neque egestas congue quisque. Semper auctor neque vitae tempus. Sit amet est placerat in. Habitant morbi tristique senectus et netus.

Nisl rhoncus mattis rhoncus urna neque viverra justo nec. Ultrices sagittis orci a scelerisque purus. Proin libero nunc consequat interdum varius. Ac feugiat sed lectus vestibulum. Id venenatis a condimentum vitae sapien pellentesque habitant. Tortor at auctor urna nunc id cursus metus aliquam eleifend. Vel orci porta non pulvinar neque laoreet suspendisse interdum consectetur. In dictum non consectetur a erat nam at lectus. Vitae aliquet nec ullamcorper sit amet risus nullam eget. Urna molestie at elementum eu facilisis sed odio morbi. Cursus eget nunc scelerisque viverra mauris in aliquam. Ut faucibus pulvinar elementum integer enim neque. Augue mauris augue neque gravida. Faucibus nisl tincidunt eget nullam non nisi. Interdum consectetur libero id faucibus nisl tincidunt eget nullam non. In tellus integer feugiat scelerisque varius morbi.

Lorem ipsum dolor sit amet, consectetur adipiscing elit, sed do eiusmod tempor incididunt ut labore et dolore magna aliqua. Et ultrices neque ornare aenean. Sit amet volutpat consequat mauris nunc congue. Nunc scelerisque viverra mauris in. Tempus imperdiet nulla malesuada pellentesque elit eget gravida cum. Eget nulla facilisi etiam dignissim diam quis enim lobortis scelerisque. Viverra accumsan in nisl nisi scelerisque. Feugiat sed lectus vestibulum mattis. Mi tempus imperdiet nulla malesuada. Leo vel fringilla est ullamcorper eget. Cursus sit amet dictum sit amet justo. Magna eget est lorem ipsum dolor sit amet. Fermentum et sollicitudin ac orci phasellus egestas tellus. Cursus metus aliquam eleifend mi in. Luctus venenatis lectus magna fringilla urna porttitor rhoncus dolor purus.

Tempor orci dapibus ultrices in iaculis nunc sed augue. Mi sit amet mauris commodo quis imperdiet massa tincidunt nunc. Pharetra convallis posuere morbi leo urna molestie. Erat nam at lectus urna duis convallis convallis tellus. Odio eu feugiat pretium nibh. Sapien pellentesque habitant morbi tristique senectus et. Urna cursus eget nunc scelerisque viverra mauris in aliquam. Commodo quis imperdiet massa tincidunt nunc pulvinar sapien et ligula. Tellus orci ac auctor augue mauris augue. Cras ornare arcu dui vivamus arcu felis bibendum. Faucibus interdum posuere lorem ipsum dolor. Et malesuada fames ac turpis egestas sed tempus. Ipsum dolor sit amet consectetur adipiscing. Mi bibendum neque egestas congue quisque. Semper auctor neque vitae tempus. Sit amet est placerat in. Habitant morbi tristique senectus et netus.

Nisl rhoncus mattis rhoncus urna neque viverra justo nec. Ultrices sagittis orci a scelerisque purus. Proin libero nunc consequat interdum varius. Ac feugiat sed lectus vestibulum. Id venenatis a condimentum vitae sapien pellentesque habitant. Tortor at auctor urna nunc id cursus metus aliquam eleifend. Vel orci porta non pulvinar neque laoreet suspendisse interdum consectetur. In dictum non consectetur a erat nam at lectus. Vitae aliquet nec ullamcorper sit amet risus nullam eget. Urna molestie at elementum eu facilisis sed odio morbi. Cursus eget nunc scelerisque viverra mauris in aliquam. Ut faucibus pulvinar elementum integer enim neque. Augue mauris augue neque gravida. Faucibus nisl tincidunt eget nullam non nisi. Interdum consectetur libero id faucibus nisl tincidunt eget nullam non. In tellus integer feugiat scelerisque varius morbi.
";

/// A blog post: its identifier, title and body text.
#[derive(Clone, Debug)]
pub struct BlogPost {
    pub id: u128,
    pub title: String,
    pub content: String,
}

/// The opening of every page, up to the start of its main content.
pub open spec fn page_head(title: Seq<char>) -> Seq<char> {
    "<!DOCTYPE html>\n<html lang=\"en\">\n<head>\n<meta charset=\"utf-8\">\n<title>"@ + title
        + "</title>\n</head>\n<body>\n<main>\n"@
}

/// The closing of every page.
pub open spec fn page_tail() -> Seq<char> {
    "</main>\n</body>\n</html>\n"@
}

/// A post as an article: its escaped title as a heading above its escaped body.
pub open spec fn article_html(title: Seq<char>, content: Seq<char>) -> Seq<char> {
    "<article>\n<h2>"@ + escape_html(title) + "</h2>\n<div class=\"post-content\">"@
        + escape_html(content) + "</div>\n</article>\n"@
}

/// The home page showing one post.
pub open spec fn index_html(title: Seq<char>, content: Seq<char>) -> Seq<char> {
    page_head("Musings"@) + article_html(title, content) + page_tail()
}

/// The page of a single post.
pub open spec fn blog_post_html(title: Seq<char>, content: Seq<char>) -> Seq<char> {
    page_head("Musings - Post"@) + article_html(title, content) + page_tail()
}

/// The page for a path that matches no route.
pub open spec fn not_found_html() -> Seq<char> {
    page_head("Musings - Not Found"@)
        + "<h1>404</h1>\n<p>Nothing lives at this address.</p>\n"@ + page_tail()
}

/// The title of the post on the home page.
pub open spec fn index_title() -> Seq<char> {
    "Blog Post 1"@
}

/// The body of the post on the home page.
pub open spec fn index_content() -> Seq<char> {
    "\n"@ + LOREM_IPSUM@
}

/// The title of a post looked up by identifier.
pub open spec fn looked_up_title() -> Seq<char> {
    "Blog Post"@
}

/// The body of a post looked up by identifier: the identifier asked for and
/// the moment of loading, then the placeholder text.
pub open spec fn looked_up_content(requested: Seq<char>, loaded_at: Seq<char>) -> Seq<char> {
    "\nPOST RECEIVED ID: "@ + requested + "\nPOST LOADED AT: "@ + loaded_at + "\n\n\n"@
        + LOREM_IPSUM@
}

/// Appends the opening of a page with the given title.
fn push_head(out: &mut String, title: &str)
    ensures
        final(out)@ == old(out)@ + page_head(title@),
{
    out.append("<!DOCTYPE html>\n<html lang=\"en\">\n<head>\n<meta charset=\"utf-8\">\n<title>");
    out.append(title);
    out.append("</title>\n</head>\n<body>\n<main>\n");
}

/// Appends the closing of a page.
fn push_tail(out: &mut String)
    ensures
        final(out)@ == old(out)@ + page_tail(),
{
    out.append("</main>\n</body>\n</html>\n");
}

/// Appends a post as an article.
fn push_article(out: &mut String, post: &BlogPost)
    ensures
        final(out)@ == old(out)@ + article_html(post.title@, post.content@),
{
    out.append("<article>\n<h2>");
    let title = html_escape(post.title.as_str());
    out.append(title.as_str());
    out.append("</h2>\n<div class=\"post-content\">");
    let content = html_escape(post.content.as_str());
    out.append(content.as_str());
    out.append("</div>\n</article>\n");
}

/// Renders the home page around `post`.
pub fn render_index(post: &BlogPost) -> (r: String)
    ensures
        r@ == index_html(post.title@, post.content@),
{
    let mut r = String::new();
    push_head(&mut r, "Musings");
    push_article(&mut r, post);
    push_tail(&mut r);
    assert(r@ =~= index_html(post.title@, post.content@));
    r
}

/// Renders the page of a single post.
pub fn render_blog_post(post: &BlogPost) -> (r: String)
    ensures
        r@ == blog_post_html(post.title@, post.content@),
{
    let mut r = String::new();
    push_head(&mut r, "Musings - Post");
    push_article(&mut r, post);
    push_tail(&mut r);
    assert(r@ =~= blog_post_html(post.title@, post.content@));
    r
}

/// Renders the page for a path that matches no route.
pub fn render_not_found() -> (r: String)
    ensures
        r@ == not_found_html(),
{
    let mut r = String::new();
    push_head(&mut r, "Musings - Not Found");
    r.append("<h1>404</h1>\n<p>Nothing lives at this address.</p>\n");
    push_tail(&mut r);
    assert(r@ =~= not_found_html());
    r
}

/// The post shown on the home page, under a fresh time-ordered identifier.
pub fn index_post() -> (r: BlogPost)
    ensures
        r.title@ == index_title(),
        r.content@ == index_content(),
{
    let mut content = String::from_str("\n");
    content.append(LOREM_IPSUM);
    BlogPost { id: time_ordered_uuid(), title: String::from_str("Blog Post 1"), content }
}

/// The placeholder post answered for the identifier `requested`, loaded at
/// the moment described by `loaded_at`, under a fresh time-ordered identifier.
pub fn looked_up_post(requested: u128, loaded_at: &str) -> (r: BlogPost)
    ensures
        r.title@ == looked_up_title(),
        r.content@ == looked_up_content(uuid_text(requested), loaded_at@),
{
    let mut content = String::from_str("\nPOST RECEIVED ID: ");
    let id_text = uuid_string(requested);
    content.append(id_text.as_str());
    content.append("\nPOST LOADED AT: ");
    content.append(loaded_at);
    content.append("\n\n\n");
    content.append(LOREM_IPSUM);
    BlogPost { id: time_ordered_uuid(), title: String::from_str("Blog Post"), content }
}

} // verus!

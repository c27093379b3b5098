//! Colors.
use vstd::prelude::*;
use vstd::string::*;

verus! {

/// A color by its red, green and blue parts (0..255).
#[derive(Debug, Clone, Copy, PartialEq, Eq, PartialOrd, Structural)]
pub struct Color {
    pub r: u8,
    pub g: u8,
    pub b: u8,
}

impl Color {
    /// New color from r, g, b (0..255).
    pub fn new(r: u8, g: u8, b: u8) -> (c: Self)
        ensures
            c == (Color { r, g, b }),
    {
        Color { r, g, b }
    }

    /// Get as tuple.
    pub fn get(&self) -> (t: (u8, u8, u8))
        ensures
            t == (self.r, self.g, self.b),
    {
        (self.r, self.g, self.b)
    }
}

/// A color of the REAPER theme, by its name in the theme file.
#[allow(non_camel_case_types)]
#[derive(Debug, Clone, Copy, PartialEq, Eq, Structural)]
pub enum ThemeColor {
    /// Main window/transport background
    /// current RGB: 51,51,51
    col_main_bg2,
    /// Main window/transport text
    /// current RGB: 170,170,170
    col_main_text2,
    /// Main window text shadow (ignored if too close to text color)
    /// current RGB: 18,26,29
    col_main_textshadow,
    /// Main window 3D highlight
    /// current RGB: 70,70,70
    col_main_3dhl,
    /// Main window 3D shadow
    /// current RGB: 45,45,45
    col_main_3dsh,
    /// Main window pane resize mouseover
    /// current RGB: 51,51,51
    col_main_resize2,
    /// Themed window text
    /// current RGB: 18,18,18
    col_main_text,
    /// Themed window background
    /// current RGB: 123,123,123
    col_main_bg,
    /// Themed window edit background
    /// current RGB: 170,170,170
    col_main_editbk,
    /// Do not use window theming on macOS dark mode
    /// bool 00000000
    col_nodarkmodemiscwnd,
    /// Transport edit background
    /// current RGB: 51,51,51
    col_transport_editbk,
    /// Toolbar button text
    /// current RGB: 159,159,159
    col_toolbar_text,
    /// Toolbar button enabled text
    /// current RGB: 191,251,192
    col_toolbar_text_on,
    /// Toolbar frame when floating or docked
    /// current RGB: 71,78,78
    col_toolbar_frame,
    /// Toolbar button armed color
    /// current RGB: 255,128,0
    toolbararmed_color,
    /// Toolbar button armed fill mode
    /// blendmode 00028001
    toolbararmed_drawmode,
    /// I/O window text
    /// current RGB: 69,69,69
    io_text,
    /// I/O window 3D highlight
    /// current RGB: 131,131,131
    io_3dhl,
    /// I/O window 3D shadow
    /// current RGB: 204,204,204
    io_3dsh,
    /// Window list background
    /// current RGB: 170,170,170
    genlist_bg,
    /// Window list text
    /// current RGB: 18,18,18
    genlist_fg,
    /// Window list grid lines
    /// current RGB: 132,132,132
    genlist_grid,
    /// Window list selected row
    /// current RGB: 87,87,87
    genlist_selbg,
    /// Window list selected text
    /// current RGB: 255,255,255
    genlist_selfg,
    /// Window list selected row (inactive)
    /// current RGB: 240,240,240
    genlist_seliabg,
    /// Window list selected text (inactive)
    /// current RGB: 0,0,0
    genlist_seliafg,
    /// Window list highlighted text
    /// current RGB: 0,0,224
    genlist_hilite,
    /// Window list highlighted selected text
    /// current RGB: 192,192,255
    genlist_hilite_sel,
    /// Button background
    /// current RGB: 0,0,0
    col_buttonbg,
    /// Track panel text
    /// current RGB: 18,26,29
    col_tcp_text,
    /// Track panel (selected) text
    /// current RGB: 18,26,29
    col_tcp_textsel,
    /// Selected track control panel background
    /// current RGB: 210,210,210
    col_seltrack,
    /// Unselected track control panel background (enabled with a checkbox
    /// above) current RGB: 197,197,197
    col_seltrack2,
    /// Locked track control panel overlay color
    /// current RGB: 51,51,51
    tcplocked_color,
    /// Locked track control panel fill mode
    /// blendmode 0002c000
    tcplocked_drawmode,
    /// Empty track list area
    /// current RGB: 51,51,51
    col_tracklistbg,
    /// Empty mixer list area
    /// current RGB: 51,51,51
    col_mixerbg,
    /// Empty arrange view area
    /// current RGB: 41,41,41
    col_arrangebg,
    /// Empty arrange view area vertical grid shading
    /// current RGB: 41,41,41
    arrange_vgrid,
    /// Fader background when automation recording
    /// current RGB: 255,125,125
    col_fadearm,
    /// Fader background when automation playing
    /// current RGB: 125,255,125
    col_fadearm2,
    /// Fader background when in inactive touch/latch
    /// current RGB: 255,255,98
    col_fadearm3,
    /// Timeline foreground
    /// current RGB: 105,107,107
    col_tl_fg,
    /// Timeline foreground (secondary markings)
    /// current RGB: 76,77,77
    col_tl_fg2,
    /// Timeline background
    /// current RGB: 48,48,48
    col_tl_bg,
    /// Time selection color
    /// current RGB: 255,255,255
    col_tl_bgsel,
    /// Time selection fill mode
    /// blendmode 00020f01
    timesel_drawmode,
    /// Timeline background (in loop points)
    /// current RGB: 192,192,192
    col_tl_bgsel2,
    /// Transport status background
    /// current RGB: 73,73,73
    col_trans_bg,
    /// Transport status text
    /// current RGB: 137,139,139
    col_trans_fg,
    /// Project play rate control when not 1.0
    /// current RGB: 127,63,0
    playrate_edited,
    /// Media item selection indicator
    /// current RGB: 255,255,255
    selitem_dot,
    /// Media item label
    /// current RGB: 170,170,170
    col_mi_label,
    /// Media item label (selected)
    /// current RGB: 170,170,170
    col_mi_label_sel,
    /// Floating media item label
    /// current RGB: 170,170,170
    col_mi_label_float,
    /// Floating media item label (selected)
    /// current RGB: 170,170,170
    col_mi_label_float_sel,
    /// Media item background (odd tracks)
    /// current RGB: 125,125,125
    col_mi_bg,
    /// Media item background (even tracks)
    /// current RGB: 125,125,125
    col_mi_bg2,
    /// Media item background selected (odd tracks)
    /// current RGB: 106,255,163
    col_tr1_itembgsel,
    /// Media item background selected (even tracks)
    /// current RGB: 106,255,163
    col_tr2_itembgsel,
    /// Media item background fill mode
    /// blendmode 00028000
    itembg_drawmode,
    /// Media item peaks (odd tracks)
    /// current RGB: 21,21,21
    col_tr1_peaks,
    /// Media item peaks (even tracks)
    /// current RGB: 21,21,21
    col_tr2_peaks,
    /// Media item peaks when selected (odd tracks)
    /// current RGB: 21,21,21
    col_tr1_ps2,
    /// Media item peaks when selected (even tracks)
    /// current RGB: 21,21,21
    col_tr2_ps2,
    /// Media item peaks edge highlight (odd tracks)
    /// current RGB: 51,51,51
    col_peaksedge,
    /// Media item peaks edge highlight (even tracks)
    /// current RGB: 51,51,51
    col_peaksedge2,
    /// Media item peaks edge highlight when selected (odd tracks)
    /// current RGB: 51,51,51
    col_peaksedgesel,
    /// Media item peaks edge highlight when selected (even tracks)
    /// current RGB: 51,51,51
    col_peaksedgesel2,
    /// Media item MIDI CC peaks fill mode
    /// blendmode 00024000
    cc_chase_drawmode,
    /// Media item peaks when active in crossfade editor (fade-out)
    /// current RGB: 0,255,0
    col_peaksfade,
    /// Media item peaks when active in crossfade editor (fade-in)
    /// current RGB: 255,0,0
    col_peaksfade2,
    /// Media item fade/volume controls
    /// current RGB: 105,16,16
    col_mi_fades,
    /// Media item fade quiet zone fill color
    /// current RGB: 72,0,0
    fadezone_color,
    /// Media item fade quiet zone fill mode
    /// blendmode 00030004
    fadezone_drawmode,
    /// Media item fade full area fill color
    /// current RGB: 0,0,96
    fadearea_color,
    /// Media item fade full area fill mode
    /// blendmode 00020000
    fadearea_drawmode,
    /// Media item edges of controls
    /// current RGB: 198,198,198
    col_mi_fade2,
    /// Media item edges of controls blend mode
    /// blendmode 00025901
    col_mi_fade2_drawmode,
    /// Media item edge when selected via grouping
    /// current RGB: 51,184,48
    item_grouphl,
    /// Media item "offline" text
    /// current RGB: 48,66,71
    col_offlinetext,
    /// Media item stretch marker line
    /// current RGB: 84,124,124
    col_stretchmarker,
    /// Media item stretch marker handle (1x)
    /// current RGB: 120,135,135
    col_stretchmarker_h0,
    /// Media item stretch marker handle (>1x)
    /// current RGB: 40,141,196
    col_stretchmarker_h1,
    /// Media item stretch marker handle (<1x)
    /// current RGB: 159,64,64
    col_stretchmarker_h2,
    /// Media item stretch marker handle edge
    /// current RGB: 192,192,192
    col_stretchmarker_b,
    /// Media item stretch marker blend mode
    /// blendmode 00030000
    col_stretchmarkerm,
    /// Media item stretch marker text
    /// current RGB: 126,153,154
    col_stretchmarker_text,
    /// Media item transient guide handle
    /// current RGB: 0,234,0
    col_stretchmarker_tm,
    /// Media item take marker
    /// current RGB: 255,255,0
    take_marker,
    /// Selected media item bar color
    /// current RGB: 0,0,0
    selitem_tag,
    /// Active media item take bar color
    /// current RGB: 0,0,0
    activetake_tag,
    /// Track background (odd tracks)
    /// current RGB: 41,41,41
    col_tr1_bg,
    /// Track background (even tracks)
    /// current RGB: 41,41,41
    col_tr2_bg,
    /// Selected track background (odd tracks)
    /// current RGB: 41,41,41
    selcol_tr1_bg,
    /// Selected track background (even tracks)
    /// current RGB: 41,41,41
    selcol_tr2_bg,
    /// Track fixed lane button
    /// current RGB: 87,96,87
    track_lane_tabcol,
    /// Track fixed lane button when only this lane plays
    /// current RGB: 201,201,38
    track_lanesolo_tabcol,
    /// Track fixed lane button text
    /// current RGB: 200,200,200
    track_lanesolo_text,
    /// Track fixed lane add area
    /// current RGB: 128,128,128
    track_lane_gutter,
    /// Track fixed lane add fill mode
    /// blendmode 00024000
    track_lane_gutter_drawmode,
    /// Track divider line (odd tracks)
    /// current RGB: 67,67,67
    col_tr1_divline,
    /// Track divider line (even tracks)
    /// current RGB: 67,67,67
    col_tr2_divline,
    /// Envelope lane divider line (odd tracks)
    /// current RGB: 0,0,0
    col_envlane1_divline,
    /// Envelope lane divider line (even tracks)
    /// current RGB: 0,0,0
    col_envlane2_divline,
    /// Muted/unsoloed track/item overlay color
    /// current RGB: 65,65,65
    mute_overlay_col,
    /// Muted/unsoloed track/item overlay mode
    /// blendmode 0002a600
    mute_overlay_mode,
    /// Inactive take/lane overlay color
    /// current RGB: 48,48,48
    inactive_take_overlay_col,
    /// Inactive take/lane overlay mode
    /// blendmode 00028000
    inactive_take_overlay_mode,
    /// Locked track/item overlay color
    /// current RGB: 0,0,0
    locked_overlay_col,
    /// Locked track/item overlay mode
    /// blendmode 00025c03
    locked_overlay_mode,
    /// Marquee fill
    /// current RGB: 128,128,110
    marquee_fill,
    /// Marquee fill mode
    /// blendmode 000299ff
    marquee_drawmode,
    /// Marquee outline
    /// current RGB: 255,255,255
    marquee_outline,
    /// Marquee zoom fill
    /// current RGB: 255,255,255
    marqueezoom_fill,
    /// Marquee zoom fill mode
    /// blendmode 00024002
    marqueezoom_drawmode,
    /// Marquee zoom outline
    /// current RGB: 0,255,0
    marqueezoom_outline,
    /// Razor edit area fill
    /// current RGB: 31,233,192
    areasel_fill,
    /// Razor edit area fill mode
    /// blendmode 00021c01
    areasel_drawmode,
    /// Razor edit area outline
    /// current RGB: 0,251,201
    areasel_outline,
    /// Razor edit area outline mode
    /// blendmode 0002c000
    areasel_outlinemode,
    /// Fixed lane comp area fill
    /// current RGB: 255,203,0
    linkedlane_fill,
    /// Fixed lane comp area fill mode
    /// blendmode 00020c01
    linkedlane_fillmode,
    /// Fixed lane comp area outline
    /// current RGB: 255,237,164
    linkedlane_outline,
    /// Fixed lane comp area outline mode
    /// blendmode 0002c000
    linkedlane_outlinemode,
    /// Fixed lane comp lane unsynced media item
    /// current RGB: 0,198,255
    linkedlane_unsynced,
    /// Fixed lane comp lane unsynced media item mode
    /// blendmode 0002ff00
    linkedlane_unsynced_mode,
    /// Edit cursor
    /// current RGB: 220,36,36
    col_cursor,
    /// Edit cursor (alternate)
    /// current RGB: 220,36,36
    col_cursor2,
    /// Play cursor
    /// current RGB: 0,0,0
    playcursor_color,
    /// Play cursor fill mode
    /// blendmode 00028003
    playcursor_drawmode,
    /// Grid lines (start of measure)
    /// current RGB: 138,69,0
    col_gridlines2,
    /// Grid lines (start of measure) - draw mode
    /// blendmode 0002c001
    col_gridlines2dm,
    /// Grid lines (start of beats)
    /// current RGB: 73,73,73
    col_gridlines3,
    /// Grid lines (start of beats) - draw mode
    /// blendmode 00028001
    col_gridlines3dm,
    /// Grid lines (in between beats)
    /// current RGB: 50,50,50
    col_gridlines,
    /// Grid lines (in between beats) - draw mode
    /// blendmode 00028001
    col_gridlines1dm,
    /// Editing guide line color
    /// current RGB: 95,169,167
    guideline_color,
    /// Editing guide fill mode
    /// blendmode 00024c01
    guideline_drawmode,
    /// Regions
    /// current RGB: 128,138,138
    region,
    /// Region lane background
    /// current RGB: 51,51,51
    region_lane_bg,
    /// Region lane text
    /// current RGB: 31,39,37
    region_lane_text,
    /// Markers
    /// current RGB: 75,0,0
    marker,
    /// Marker lane background
    /// current RGB: 73,73,73
    marker_lane_bg,
    /// Marker lane text
    /// current RGB: 165,165,165
    marker_lane_text,
    /// Time signature change marker
    /// current RGB: 170,170,170
    col_tsigmark,
    /// Time signature lane background
    /// current RGB: 51,51,51
    ts_lane_bg,
    /// Time signature lane text
    /// current RGB: 165,165,165
    ts_lane_text,
    /// Time signature marker selected background
    /// current RGB: 70,0,0
    timesig_sel_bg,
    /// Routing matrix row highlight
    /// current RGB: 255,255,192
    col_routinghl1,
    /// Routing matrix column highlight
    /// current RGB: 128,128,255
    col_routinghl2,
    /// Routing matrix input activity highlight
    /// current RGB: 64,255,64
    col_routingact,
    /// Theme has interlaced VU meters
    /// bool 00000000
    col_vudoint,
    /// VU meter clip indicator
    /// current RGB: 255,0,0
    col_vuclip,
    /// VU meter top
    /// current RGB: 255,128,0
    col_vutop,
    /// VU meter middle
    /// current RGB: 255,255,0
    col_vumid,
    /// VU meter bottom
    /// current RGB: 0,191,191
    col_vubot,
    /// VU meter interlace/edge color
    /// current RGB: 32,32,32
    col_vuintcol,
    /// VU meter gain reduction background
    /// current RGB: 32,32,32
    vu_gr_bgcol,
    /// VU meter gain reduction indicator
    /// current RGB: 224,224,0
    vu_gr_fgcol,
    /// VU meter midi activity
    /// current RGB: 255,0,0
    col_vumidi,
    /// VU (indicator) - no signal
    /// current RGB: 32,32,32
    col_vuind1,
    /// VU (indicator) - low signal
    /// current RGB: 213,0,0
    col_vuind2,
    /// VU (indicator) - med signal
    /// current RGB: 255,128,0
    col_vuind3,
    /// VU (indicator) - hot signal
    /// current RGB: 255,255,0
    col_vuind4,
    /// Sends text: normal
    /// current RGB: 163,163,163
    mcp_sends_normal,
    /// Sends text: muted
    /// current RGB: 152,134,99
    mcp_sends_muted,
    /// Sends text: MIDI hardware
    /// current RGB: 163,163,163
    mcp_send_midihw,
    /// Sends level
    /// current RGB: 48,66,71
    mcp_sends_levels,
    /// FX insert text: normal
    /// current RGB: 201,164,107
    mcp_fx_normal,
    /// FX insert text: bypassed
    /// current RGB: 140,140,140
    mcp_fx_bypassed,
    /// FX insert text: offline
    /// current RGB: 183,68,68
    mcp_fx_offlined,
    /// FX parameter text: normal
    /// current RGB: 163,163,163
    mcp_fxparm_normal,
    /// FX parameter text: bypassed
    /// current RGB: 152,134,99
    mcp_fxparm_bypassed,
    /// FX parameter text: offline
    /// current RGB: 152,99,99
    mcp_fxparm_offlined,
    /// List scrollbar (track panel)
    /// current RGB: 50,50,50
    tcp_list_scrollbar,
    /// List scrollbar (track panel) - draw mode
    /// blendmode 00028000
    tcp_list_scrollbar_mode,
    /// List scrollbar mouseover (track panel)
    /// current RGB: 30,30,30
    tcp_list_scrollbar_mouseover,
    /// List scrollbar mouseover (track panel) - draw mode
    /// blendmode 00028000
    tcp_list_scrollbar_mouseover_mode,
    /// List scrollbar (mixer panel)
    /// current RGB: 140,140,140
    mcp_list_scrollbar,
    /// List scrollbar (mixer panel) - draw mode
    /// blendmode 00028000
    mcp_list_scrollbar_mode,
    /// List scrollbar mouseover (mixer panel)
    /// current RGB: 64,191,159
    mcp_list_scrollbar_mouseover,
    /// List scrollbar mouseover (mixer panel) - draw mode
    /// blendmode 00028000
    mcp_list_scrollbar_mouseover_mode,
    /// MIDI editor ruler background
    /// current RGB: 51,51,51
    midi_rulerbg,
    /// MIDI editor ruler text
    /// current RGB: 127,127,127
    midi_rulerfg,
    /// MIDI editor grid line (start of measure)
    /// current RGB: 138,69,0
    midi_grid2,
    /// MIDI editor grid line (start of measure) - draw mode
    /// blendmode 00030000
    midi_griddm2,
    /// MIDI editor grid line (start of beats)
    /// current RGB: 91,91,91
    midi_grid3,
    /// MIDI editor grid line (start of beats) - draw mode
    /// blendmode 00030000
    midi_griddm3,
    /// MIDI editor grid line (between beats)
    /// current RGB: 91,91,91
    midi_grid1,
    /// MIDI editor grid line (between beats) - draw mode
    /// blendmode 00028000
    midi_griddm1,
    /// MIDI editor background color (naturals)
    /// current RGB: 48,48,48
    midi_trackbg1,
    /// MIDI editor background color (sharps/flats)
    /// current RGB: 41,41,41
    midi_trackbg2,
    /// MIDI editor background color, out of bounds (naturals)
    /// current RGB: 31,31,31
    midi_trackbg_outer1,
    /// MIDI editor background color, out of bounds (sharps/flats)
    /// current RGB: 24,24,24
    midi_trackbg_outer2,
    /// MIDI editor background color, selected pitch (naturals)
    /// current RGB: 87,57,57
    midi_selpitch1,
    /// MIDI editor background color, selected pitch (sharps/flats)
    /// current RGB: 75,52,52
    midi_selpitch2,
    /// MIDI editor time selection color
    /// current RGB: 255,255,255
    midi_selbg,
    /// MIDI editor time selection fill mode
    /// blendmode 00020c01
    midi_selbg_drawmode,
    /// MIDI editor CC horizontal center line
    /// current RGB: 157,157,157
    midi_gridhc,
    /// MIDI editor CC horizontal center line - draw mode
    /// blendmode 00030000
    midi_gridhcdm,
    /// MIDI editor CC horizontal line
    /// current RGB: 91,91,91
    midi_gridh,
    /// MIDI editor CC horizontal line - draw mode
    /// blendmode 00028000
    midi_gridhdm,
    /// MIDI editor CC lane add/remove buttons
    /// current RGB: 123,123,123
    midi_ccbut,
    /// MIDI editor CC lane button text
    /// current RGB: 170,170,170
    midi_ccbut_text,
    /// MIDI editor CC lane button arrow
    /// current RGB: 170,170,170
    midi_ccbut_arrow,
    /// MIDI editor octave line color
    /// current RGB: 73,73,73
    midioct,
    /// MIDI inline background color (naturals)
    /// current RGB: 48,48,48
    midi_inline_trackbg1,
    /// MIDI inline background color (sharps/flats)
    /// current RGB: 41,41,41
    midi_inline_trackbg2,
    /// MIDI inline octave line color
    /// current RGB: 73,73,73
    midioct_inline,
    /// MIDI editor end marker
    /// current RGB: 58,58,58
    midi_endpt,
    /// MIDI editor note, unselected (midi_note_colormap overrides)
    /// current RGB: 91,123,108
    midi_notebg,
    /// MIDI editor note, selected (midi_note_colormap overrides)
    /// current RGB: 49,49,49
    midi_notefg,
    /// MIDI editor note, muted, unselected (midi_note_colormap overrides)
    /// current RGB: 53,53,53
    midi_notemute,
    /// MIDI editor note, muted, selected (midi_note_colormap overrides)
    /// current RGB: 24,24,24
    midi_notemute_sel,
    /// MIDI editor note controls
    /// current RGB: 53,53,53
    midi_itemctl,
    /// MIDI editor note (offscreen)
    /// current RGB: 59,59,59
    midi_ofsn,
    /// MIDI editor note (offscreen, selected)
    /// current RGB: 59,59,59
    midi_ofsnsel,
    /// MIDI editor cursor
    /// current RGB: 220,36,36
    midi_editcurs,
    /// MIDI piano key color (naturals background, sharps/flats text)
    /// current RGB: 255,255,255
    midi_pkey1,
    /// MIDI piano key color (sharps/flats background, naturals text)
    /// current RGB: 0,0,0
    midi_pkey2,
    /// MIDI piano key color (selected)
    /// current RGB: 93,93,93
    midi_pkey3,
    /// MIDI piano key note-on flash
    /// current RGB: 188,148,39
    midi_noteon_flash,
    /// MIDI piano pane background
    /// current RGB: 53,53,53
    midi_leftbg,
    /// MIDI editor note text and control color, unselected (light)
    /// current RGB: 224,224,224
    midifont_col_light_unsel,
    /// MIDI editor note text and control color, unselected (dark)
    /// current RGB: 32,32,32
    midifont_col_dark_unsel,
    /// MIDI editor note text and control mode, unselected
    /// blendmode 0002c000
    midifont_mode_unsel,
    /// MIDI editor note text and control color (light)
    /// current RGB: 189,189,189
    midifont_col_light,
    /// MIDI editor note text and control color (dark)
    /// current RGB: 64,64,64
    midifont_col_dark,
    /// MIDI editor note text and control mode
    /// blendmode 00030000
    midifont_mode,
    /// MIDI notation editor background
    /// current RGB: 255,255,255
    score_bg,
    /// MIDI notation editor staff/notation/text
    /// current RGB: 0,0,0
    score_fg,
    /// MIDI notation editor selected staff/notation/text
    /// current RGB: 0,0,255
    score_sel,
    /// MIDI notation editor time selection
    /// current RGB: 255,255,224
    score_timesel,
    /// MIDI notation editor loop points, selected pitch
    /// current RGB: 255,192,0
    score_loop,
    /// MIDI list editor background
    /// current RGB: 53,53,53
    midieditorlist_bg,
    /// MIDI list editor text
    /// current RGB: 170,170,170
    midieditorlist_fg,
    /// MIDI list editor grid lines
    /// current RGB: 53,53,53
    midieditorlist_grid,
    /// MIDI list editor selected row
    /// current RGB: 51,153,255
    midieditorlist_selbg,
    /// MIDI list editor selected text
    /// current RGB: 255,255,255
    midieditorlist_selfg,
    /// MIDI list editor selected row (inactive)
    /// current RGB: 240,240,240
    midieditorlist_seliabg,
    /// MIDI list editor selected text (inactive)
    /// current RGB: 0,0,0
    midieditorlist_seliafg,
    /// MIDI list editor background (secondary)
    /// current RGB: 53,53,53
    midieditorlist_bg2,
    /// MIDI list editor text (secondary)
    /// current RGB: 0,0,0
    midieditorlist_fg2,
    /// MIDI list editor selected row (secondary)
    /// current RGB: 35,135,240
    midieditorlist_selbg2,
    /// MIDI list editor selected text (secondary)
    /// current RGB: 255,255,255
    midieditorlist_selfg2,
    /// Media explorer selection
    /// current RGB: 255,255,255
    col_explorer_sel,
    /// Media explorer selection mode
    /// blendmode 00021501
    col_explorer_seldm,
    /// Media explorer selection edge
    /// current RGB: 255,255,255
    col_explorer_seledge,
    /// Media explorer grid, markers
    /// current RGB: 255,255,255
    explorer_grid,
    /// Media explorer pitch detection text
    /// current RGB: 255,255,255
    explorer_pitchtext,
    /// Tab control shadow
    /// current RGB: 18,26,29
    docker_shadow,
    /// Tab control selected tab
    /// current RGB: 74,74,74
    docker_selface,
    /// Tab control unselected tab
    /// current RGB: 51,51,51
    docker_unselface,
    /// Tab control text
    /// current RGB: 51,51,51
    docker_text,
    /// Tab control text selected tab
    /// current RGB: 51,51,51
    docker_text_sel,
    /// Tab control background
    /// current RGB: 66,66,66
    docker_bg,
    /// Tab control background in windows
    /// current RGB: 120,120,120
    windowtab_bg,
    /// Envelope: Unselected automation item
    /// current RGB: 96,96,96
    auto_item_unsel,
    /// Envelope: Volume (pre-FX)
    /// current RGB: 0,220,128
    col_env1,
    /// Envelope: Volume
    /// current RGB: 0,213,27
    col_env2,
    /// Envelope: Trim Volume
    /// current RGB: 213,0,106
    env_trim_vol,
    /// Envelope: Pan (pre-FX)
    /// current RGB: 255,0,0
    col_env3,
    /// Envelope: Pan
    /// current RGB: 255,150,0
    col_env4,
    /// Envelope: Mute
    /// current RGB: 213,0,159
    env_track_mute,
    /// Envelope: Master playrate
    /// current RGB: 213,0,106
    col_env5,
    /// Envelope: Master tempo
    /// current RGB: 0,255,255
    col_env6,
    /// Envelope: Width / Send volume
    /// current RGB: 213,0,0
    col_env7,
    /// Envelope: Send pan
    /// current RGB: 0,128,128
    col_env8,
    /// Envelope: Send volume 2
    /// current RGB: 128,0,0
    col_env9,
    /// Envelope: Send pan 2
    /// current RGB: 0,128,128
    col_env10,
    /// Envelope: Send mute
    /// current RGB: 192,192,0
    env_sends_mute,
    /// Envelope: Audio hardware output volume
    /// current RGB: 0,255,255
    col_env11,
    /// Envelope: Audio hardware output pan
    /// current RGB: 255,255,0
    col_env12,
    /// Envelope: FX parameter 1
    /// current RGB: 168,0,255
    col_env13,
    /// Envelope: FX parameter 2
    /// current RGB: 48,146,147
    col_env14,
    /// Envelope: FX parameter 3
    /// current RGB: 0,130,255
    col_env15,
    /// Envelope: FX parameter 4
    /// current RGB: 192,39,69
    col_env16,
    /// Envelope: Item take volume
    /// current RGB: 128,0,0
    env_item_vol,
    /// Envelope: Item take pan
    /// current RGB: 0,128,128
    env_item_pan,
    /// Envelope: Item take mute
    /// current RGB: 192,192,0
    env_item_mute,
    /// Envelope: Item take pitch
    /// current RGB: 0,255,255
    env_item_pitch,
    /// Wiring: Background
    /// current RGB: 46,46,46
    wiring_grid2,
    /// Wiring: Background grid lines
    /// current RGB: 51,51,51
    wiring_grid,
    /// Wiring: Box border
    /// current RGB: 153,153,153
    wiring_border,
    /// Wiring: Box background
    /// current RGB: 38,38,38
    wiring_tbg,
    /// Wiring: Box foreground
    /// current RGB: 204,204,204
    wiring_ticon,
    /// Wiring: Record section background
    /// current RGB: 101,77,77
    wiring_recbg,
    /// Wiring: Record section foreground
    /// current RGB: 63,33,33
    wiring_recitem,
    /// Wiring: Media
    /// current RGB: 32,64,32
    wiring_media,
    /// Wiring: Receives
    /// current RGB: 92,92,92
    wiring_recv,
    /// Wiring: Sends
    /// current RGB: 92,92,92
    wiring_send,
    /// Wiring: Fader
    /// current RGB: 128,128,192
    wiring_fader,
    /// Wiring: Master/Parent
    /// current RGB: 64,128,128
    wiring_parent,
    /// Wiring: Master/Parent wire border
    /// current RGB: 100,100,100
    wiring_parentwire_border,
    /// Wiring: Master/Parent to master wire
    /// current RGB: 192,192,192
    wiring_parentwire_master,
    /// Wiring: Master/Parent to parent folder wire
    /// current RGB: 128,128,128
    wiring_parentwire_folder,
    /// Wiring: Pins normal
    /// current RGB: 192,192,192
    wiring_pin_normal,
    /// Wiring: Pins connected
    /// current RGB: 96,144,96
    wiring_pin_connected,
    /// Wiring: Pins disconnected
    /// current RGB: 64,32,32
    wiring_pin_disconnected,
    /// Wiring: Horizontal pin connections
    /// current RGB: 72,72,72
    wiring_horz_col,
    /// Wiring: Send hanging wire
    /// current RGB: 128,128,128
    wiring_sendwire,
    /// Wiring: Hardware output wire
    /// current RGB: 128,128,128
    wiring_hwoutwire,
    /// Wiring: Record input wire
    /// current RGB: 255,128,128
    wiring_recinputwire,
    /// Wiring: System hardware outputs
    /// current RGB: 64,64,64
    wiring_hwout,
    /// Wiring: System record inputs
    /// current RGB: 128,64,64
    wiring_recinput,
    /// Wiring: Activity lights
    /// current RGB: 64,255,64
    wiring_activity,
    /// Automatic track group
    /// current RGB: 255,255,255
    autogroup,
    /// Group #1
    /// current RGB: 255,0,0
    group_0,
    /// Group #2
    /// current RGB: 0,255,0
    group_1,
    /// Group #3
    /// current RGB: 0,0,255
    group_2,
    /// Group #4
    /// current RGB: 255,255,0
    group_3,
    /// Group #5
    /// current RGB: 255,0,255
    group_4,
    /// Group #6
    /// current RGB: 0,255,255
    group_5,
    /// Group #7
    /// current RGB: 192,0,0
    group_6,
    /// Group #8
    /// current RGB: 0,192,0
    group_7,
    /// Group #9
    /// current RGB: 0,0,192
    group_8,
    /// Group #10
    /// current RGB: 192,192,0
    group_9,
    /// Group #11
    /// current RGB: 192,0,192
    group_10,
    /// Group #12
    /// current RGB: 0,192,192
    group_11,
    /// Group #13
    /// current RGB: 128,0,0
    group_12,
    /// Group #14
    /// current RGB: 0,128,0
    group_13,
    /// Group #15
    /// current RGB: 0,0,128
    group_14,
    /// Group #16
    /// current RGB: 128,128,0
    group_15,
    /// Group #17
    /// current RGB: 128,0,128
    group_16,
    /// Group #18
    /// current RGB: 0,128,128
    group_17,
    /// Group #19
    /// current RGB: 192,128,0
    group_18,
    /// Group #20
    /// current RGB: 0,192,128
    group_19,
    /// Group #21
    /// current RGB: 0,128,192
    group_20,
    /// Group #22
    /// current RGB: 192,128,0
    group_21,
    /// Group #23
    /// current RGB: 128,0,192
    group_22,
    /// Group #24
    /// current RGB: 128,192,0
    group_23,
    /// Group #25
    /// current RGB: 64,0,0
    group_24,
    /// Group #26
    /// current RGB: 0,64,0
    group_25,
    /// Group #27
    /// current RGB: 0,0,64
    group_26,
    /// Group #28
    /// current RGB: 64,64,0
    group_27,
    /// Group #29
    /// current RGB: 64,0,64
    group_28,
    /// Group #30
    /// current RGB: 0,64,64
    group_29,
    /// Group #31
    /// current RGB: 64,0,64
    group_30,
    /// Group #32
    /// current RGB: 0,64,64
    group_31,
    /// Group #33
    /// current RGB: 128,255,255
    group_32,
    /// Group #34
    /// current RGB: 128,0,128
    group_33,
    /// Group #35
    /// current RGB: 1,255,128
    group_34,
    /// Group #36
    /// current RGB: 128,0,255
    group_35,
    /// Group #37
    /// current RGB: 1,255,255
    group_36,
    /// Group #38
    /// current RGB: 1,0,128
    group_37,
    /// Group #39
    /// current RGB: 128,255,224
    group_38,
    /// Group #40
    /// current RGB: 128,63,128
    group_39,
    /// Group #41
    /// current RGB: 32,255,128
    group_40,
    /// Group #42
    /// current RGB: 128,63,224
    group_41,
    /// Group #43
    /// current RGB: 32,255,224
    group_42,
    /// Group #44
    /// current RGB: 32,63,128
    group_43,
    /// Group #45
    /// current RGB: 128,255,192
    group_44,
    /// Group #46
    /// current RGB: 128,127,128
    group_45,
    /// Group #47
    /// current RGB: 64,255,128
    group_46,
    /// Group #48
    /// current RGB: 128,127,192
    group_47,
    /// Group #49
    /// current RGB: 64,255,192
    group_48,
    /// Group #50
    /// current RGB: 64,127,128
    group_49,
    /// Group #51
    /// current RGB: 128,127,224
    group_50,
    /// Group #52
    /// current RGB: 64,63,128
    group_51,
    /// Group #53
    /// current RGB: 32,127,128
    group_52,
    /// Group #54
    /// current RGB: 128,127,224
    group_53,
    /// Group #55
    /// current RGB: 32,255,192
    group_54,
    /// Group #56
    /// current RGB: 128,63,192
    group_55,
    /// Group #57
    /// current RGB: 128,255,160
    group_56,
    /// Group #58
    /// current RGB: 128,191,128
    group_57,
    /// Group #59
    /// current RGB: 96,255,128
    group_58,
    /// Group #60
    /// current RGB: 128,191,160
    group_59,
    /// Group #61
    /// current RGB: 96,255,160
    group_60,
    /// Group #62
    /// current RGB: 96,191,128
    group_61,
    /// Group #63
    /// current RGB: 96,255,160
    group_62,
    /// Group #64
    /// current RGB: 96,191,128
    group_63,
}

impl ThemeColor {
    /// The name of the color in the theme file, as the variant is written.
    pub open spec fn spec_name(self) -> Seq<char> {
        match self {
            ThemeColor::col_main_bg2 => "col_main_bg2"@,
            ThemeColor::col_main_text2 => "col_main_text2"@,
            ThemeColor::col_main_textshadow => "col_main_textshadow"@,
            ThemeColor::col_main_3dhl => "col_main_3dhl"@,
            ThemeColor::col_main_3dsh => "col_main_3dsh"@,
            ThemeColor::col_main_resize2 => "col_main_resize2"@,
            ThemeColor::col_main_text => "col_main_text"@,
            ThemeColor::col_main_bg => "col_main_bg"@,
            ThemeColor::col_main_editbk => "col_main_editbk"@,
            ThemeColor::col_nodarkmodemiscwnd => "col_nodarkmodemiscwnd"@,
            ThemeColor::col_transport_editbk => "col_transport_editbk"@,
            ThemeColor::col_toolbar_text => "col_toolbar_text"@,
            ThemeColor::col_toolbar_text_on => "col_toolbar_text_on"@,
            ThemeColor::col_toolbar_frame => "col_toolbar_frame"@,
            ThemeColor::toolbararmed_color => "toolbararmed_color"@,
            ThemeColor::toolbararmed_drawmode => "toolbararmed_drawmode"@,
            ThemeColor::io_text => "io_text"@,
            ThemeColor::io_3dhl => "io_3dhl"@,
            ThemeColor::io_3dsh => "io_3dsh"@,
            ThemeColor::genlist_bg => "genlist_bg"@,
            ThemeColor::genlist_fg => "genlist_fg"@,
            ThemeColor::genlist_grid => "genlist_grid"@,
            ThemeColor::genlist_selbg => "genlist_selbg"@,
            ThemeColor::genlist_selfg => "genlist_selfg"@,
            ThemeColor::genlist_seliabg => "genlist_seliabg"@,
            ThemeColor::genlist_seliafg => "genlist_seliafg"@,
            ThemeColor::genlist_hilite => "genlist_hilite"@,
            ThemeColor::genlist_hilite_sel => "genlist_hilite_sel"@,
            ThemeColor::col_buttonbg => "col_buttonbg"@,
            ThemeColor::col_tcp_text => "col_tcp_text"@,
            ThemeColor::col_tcp_textsel => "col_tcp_textsel"@,
            ThemeColor::col_seltrack => "col_seltrack"@,
            ThemeColor::col_seltrack2 => "col_seltrack2"@,
            ThemeColor::tcplocked_color => "tcplocked_color"@,
            ThemeColor::tcplocked_drawmode => "tcplocked_drawmode"@,
            ThemeColor::col_tracklistbg => "col_tracklistbg"@,
            ThemeColor::col_mixerbg => "col_mixerbg"@,
            ThemeColor::col_arrangebg => "col_arrangebg"@,
            ThemeColor::arrange_vgrid => "arrange_vgrid"@,
            ThemeColor::col_fadearm => "col_fadearm"@,
            ThemeColor::col_fadearm2 => "col_fadearm2"@,
            ThemeColor::col_fadearm3 => "col_fadearm3"@,
            ThemeColor::col_tl_fg => "col_tl_fg"@,
            ThemeColor::col_tl_fg2 => "col_tl_fg2"@,
            ThemeColor::col_tl_bg => "col_tl_bg"@,
            ThemeColor::col_tl_bgsel => "col_tl_bgsel"@,
            ThemeColor::timesel_drawmode => "timesel_drawmode"@,
            ThemeColor::col_tl_bgsel2 => "col_tl_bgsel2"@,
            ThemeColor::col_trans_bg => "col_trans_bg"@,
            ThemeColor::col_trans_fg => "col_trans_fg"@,
            ThemeColor::playrate_edited => "playrate_edited"@,
            ThemeColor::selitem_dot => "selitem_dot"@,
            ThemeColor::col_mi_label => "col_mi_label"@,
            ThemeColor::col_mi_label_sel => "col_mi_label_sel"@,
            ThemeColor::col_mi_label_float => "col_mi_label_float"@,
            ThemeColor::col_mi_label_float_sel => "col_mi_label_float_sel"@,
            ThemeColor::col_mi_bg => "col_mi_bg"@,
            ThemeColor::col_mi_bg2 => "col_mi_bg2"@,
            ThemeColor::col_tr1_itembgsel => "col_tr1_itembgsel"@,
            ThemeColor::col_tr2_itembgsel => "col_tr2_itembgsel"@,
            ThemeColor::itembg_drawmode => "itembg_drawmode"@,
            ThemeColor::col_tr1_peaks => "col_tr1_peaks"@,
            ThemeColor::col_tr2_peaks => "col_tr2_peaks"@,
            ThemeColor::col_tr1_ps2 => "col_tr1_ps2"@,
            ThemeColor::col_tr2_ps2 => "col_tr2_ps2"@,
            ThemeColor::col_peaksedge => "col_peaksedge"@,
            ThemeColor::col_peaksedge2 => "col_peaksedge2"@,
            ThemeColor::col_peaksedgesel => "col_peaksedgesel"@,
            ThemeColor::col_peaksedgesel2 => "col_peaksedgesel2"@,
            ThemeColor::cc_chase_drawmode => "cc_chase_drawmode"@,
            ThemeColor::col_peaksfade => "col_peaksfade"@,
            ThemeColor::col_peaksfade2 => "col_peaksfade2"@,
            ThemeColor::col_mi_fades => "col_mi_fades"@,
            ThemeColor::fadezone_color => "fadezone_color"@,
            ThemeColor::fadezone_drawmode => "fadezone_drawmode"@,
            ThemeColor::fadearea_color => "fadearea_color"@,
            ThemeColor::fadearea_drawmode => "fadearea_drawmode"@,
            ThemeColor::col_mi_fade2 => "col_mi_fade2"@,
            ThemeColor::col_mi_fade2_drawmode => "col_mi_fade2_drawmode"@,
            ThemeColor::item_grouphl => "item_grouphl"@,
            ThemeColor::col_offlinetext => "col_offlinetext"@,
            ThemeColor::col_stretchmarker => "col_stretchmarker"@,
            ThemeColor::col_stretchmarker_h0 => "col_stretchmarker_h0"@,
            ThemeColor::col_stretchmarker_h1 => "col_stretchmarker_h1"@,
            ThemeColor::col_stretchmarker_h2 => "col_stretchmarker_h2"@,
            ThemeColor::col_stretchmarker_b => "col_stretchmarker_b"@,
            ThemeColor::col_stretchmarkerm => "col_stretchmarkerm"@,
            ThemeColor::col_stretchmarker_text => "col_stretchmarker_text"@,
            ThemeColor::col_stretchmarker_tm => "col_stretchmarker_tm"@,
            ThemeColor::take_marker => "take_marker"@,
            ThemeColor::selitem_tag => "selitem_tag"@,
            ThemeColor::activetake_tag => "activetake_tag"@,
            ThemeColor::col_tr1_bg => "col_tr1_bg"@,
            ThemeColor::col_tr2_bg => "col_tr2_bg"@,
            ThemeColor::selcol_tr1_bg => "selcol_tr1_bg"@,
            ThemeColor::selcol_tr2_bg => "selcol_tr2_bg"@,
            ThemeColor::track_lane_tabcol => "track_lane_tabcol"@,
            ThemeColor::track_lanesolo_tabcol => "track_lanesolo_tabcol"@,
            ThemeColor::track_lanesolo_text => "track_lanesolo_text"@,
            ThemeColor::track_lane_gutter => "track_lane_gutter"@,
            ThemeColor::track_lane_gutter_drawmode => "track_lane_gutter_drawmode"@,
            ThemeColor::col_tr1_divline => "col_tr1_divline"@,
            ThemeColor::col_tr2_divline => "col_tr2_divline"@,
            ThemeColor::col_envlane1_divline => "col_envlane1_divline"@,
            ThemeColor::col_envlane2_divline => "col_envlane2_divline"@,
            ThemeColor::mute_overlay_col => "mute_overlay_col"@,
            ThemeColor::mute_overlay_mode => "mute_overlay_mode"@,
            ThemeColor::inactive_take_overlay_col => "inactive_take_overlay_col"@,
            ThemeColor::inactive_take_overlay_mode => "inactive_take_overlay_mode"@,
            ThemeColor::locked_overlay_col => "locked_overlay_col"@,
            ThemeColor::locked_overlay_mode => "locked_overlay_mode"@,
            ThemeColor::marquee_fill => "marquee_fill"@,
            ThemeColor::marquee_drawmode => "marquee_drawmode"@,
            ThemeColor::marquee_outline => "marquee_outline"@,
            ThemeColor::marqueezoom_fill => "marqueezoom_fill"@,
            ThemeColor::marqueezoom_drawmode => "marqueezoom_drawmode"@,
            ThemeColor::marqueezoom_outline => "marqueezoom_outline"@,
            ThemeColor::areasel_fill => "areasel_fill"@,
            ThemeColor::areasel_drawmode => "areasel_drawmode"@,
            ThemeColor::areasel_outline => "areasel_outline"@,
            ThemeColor::areasel_outlinemode => "areasel_outlinemode"@,
            ThemeColor::linkedlane_fill => "linkedlane_fill"@,
            ThemeColor::linkedlane_fillmode => "linkedlane_fillmode"@,
            ThemeColor::linkedlane_outline => "linkedlane_outline"@,
            ThemeColor::linkedlane_outlinemode => "linkedlane_outlinemode"@,
            ThemeColor::linkedlane_unsynced => "linkedlane_unsynced"@,
            ThemeColor::linkedlane_unsynced_mode => "linkedlane_unsynced_mode"@,
            ThemeColor::col_cursor => "col_cursor"@,
            ThemeColor::col_cursor2 => "col_cursor2"@,
            ThemeColor::playcursor_color => "playcursor_color"@,
            ThemeColor::playcursor_drawmode => "playcursor_drawmode"@,
            ThemeColor::col_gridlines2 => "col_gridlines2"@,
            ThemeColor::col_gridlines2dm => "col_gridlines2dm"@,
            ThemeColor::col_gridlines3 => "col_gridlines3"@,
            ThemeColor::col_gridlines3dm => "col_gridlines3dm"@,
            ThemeColor::col_gridlines => "col_gridlines"@,
            ThemeColor::col_gridlines1dm => "col_gridlines1dm"@,
            ThemeColor::guideline_color => "guideline_color"@,
            ThemeColor::guideline_drawmode => "guideline_drawmode"@,
            ThemeColor::region => "region"@,
            ThemeColor::region_lane_bg => "region_lane_bg"@,
            ThemeColor::region_lane_text => "region_lane_text"@,
            ThemeColor::marker => "marker"@,
            ThemeColor::marker_lane_bg => "marker_lane_bg"@,
            ThemeColor::marker_lane_text => "marker_lane_text"@,
            ThemeColor::col_tsigmark => "col_tsigmark"@,
            ThemeColor::ts_lane_bg => "ts_lane_bg"@,
            ThemeColor::ts_lane_text => "ts_lane_text"@,
            ThemeColor::timesig_sel_bg => "timesig_sel_bg"@,
            ThemeColor::col_routinghl1 => "col_routinghl1"@,
            ThemeColor::col_routinghl2 => "col_routinghl2"@,
            ThemeColor::col_routingact => "col_routingact"@,
            ThemeColor::col_vudoint => "col_vudoint"@,
            ThemeColor::col_vuclip => "col_vuclip"@,
            ThemeColor::col_vutop => "col_vutop"@,
            ThemeColor::col_vumid => "col_vumid"@,
            ThemeColor::col_vubot => "col_vubot"@,
            ThemeColor::col_vuintcol => "col_vuintcol"@,
            ThemeColor::vu_gr_bgcol => "vu_gr_bgcol"@,
            ThemeColor::vu_gr_fgcol => "vu_gr_fgcol"@,
            ThemeColor::col_vumidi => "col_vumidi"@,
            ThemeColor::col_vuind1 => "col_vuind1"@,
            ThemeColor::col_vuind2 => "col_vuind2"@,
            ThemeColor::col_vuind3 => "col_vuind3"@,
            ThemeColor::col_vuind4 => "col_vuind4"@,
            ThemeColor::mcp_sends_normal => "mcp_sends_normal"@,
            ThemeColor::mcp_sends_muted => "mcp_sends_muted"@,
            ThemeColor::mcp_send_midihw => "mcp_send_midihw"@,
            ThemeColor::mcp_sends_levels => "mcp_sends_levels"@,
            ThemeColor::mcp_fx_normal => "mcp_fx_normal"@,
            ThemeColor::mcp_fx_bypassed => "mcp_fx_bypassed"@,
            ThemeColor::mcp_fx_offlined => "mcp_fx_offlined"@,
            ThemeColor::mcp_fxparm_normal => "mcp_fxparm_normal"@,
            ThemeColor::mcp_fxparm_bypassed => "mcp_fxparm_bypassed"@,
            ThemeColor::mcp_fxparm_offlined => "mcp_fxparm_offlined"@,
            ThemeColor::tcp_list_scrollbar => "tcp_list_scrollbar"@,
            ThemeColor::tcp_list_scrollbar_mode => "tcp_list_scrollbar_mode"@,
            ThemeColor::tcp_list_scrollbar_mouseover => "tcp_list_scrollbar_mouseover"@,
            ThemeColor::tcp_list_scrollbar_mouseover_mode => "tcp_list_scrollbar_mouseover_mode"@,
            ThemeColor::mcp_list_scrollbar => "mcp_list_scrollbar"@,
            ThemeColor::mcp_list_scrollbar_mode => "mcp_list_scrollbar_mode"@,
            ThemeColor::mcp_list_scrollbar_mouseover => "mcp_list_scrollbar_mouseover"@,
            ThemeColor::mcp_list_scrollbar_mouseover_mode => "mcp_list_scrollbar_mouseover_mode"@,
            ThemeColor::midi_rulerbg => "midi_rulerbg"@,
            ThemeColor::midi_rulerfg => "midi_rulerfg"@,
            ThemeColor::midi_grid2 => "midi_grid2"@,
            ThemeColor::midi_griddm2 => "midi_griddm2"@,
            ThemeColor::midi_grid3 => "midi_grid3"@,
            ThemeColor::midi_griddm3 => "midi_griddm3"@,
            ThemeColor::midi_grid1 => "midi_grid1"@,
            ThemeColor::midi_griddm1 => "midi_griddm1"@,
            ThemeColor::midi_trackbg1 => "midi_trackbg1"@,
            ThemeColor::midi_trackbg2 => "midi_trackbg2"@,
            ThemeColor::midi_trackbg_outer1 => "midi_trackbg_outer1"@,
            ThemeColor::midi_trackbg_outer2 => "midi_trackbg_outer2"@,
            ThemeColor::midi_selpitch1 => "midi_selpitch1"@,
            ThemeColor::midi_selpitch2 => "midi_selpitch2"@,
            ThemeColor::midi_selbg => "midi_selbg"@,
            ThemeColor::midi_selbg_drawmode => "midi_selbg_drawmode"@,
            ThemeColor::midi_gridhc => "midi_gridhc"@,
            ThemeColor::midi_gridhcdm => "midi_gridhcdm"@,
            ThemeColor::midi_gridh => "midi_gridh"@,
            ThemeColor::midi_gridhdm => "midi_gridhdm"@,
            ThemeColor::midi_ccbut => "midi_ccbut"@,
            ThemeColor::midi_ccbut_text => "midi_ccbut_text"@,
            ThemeColor::midi_ccbut_arrow => "midi_ccbut_arrow"@,
            ThemeColor::midioct => "midioct"@,
            ThemeColor::midi_inline_trackbg1 => "midi_inline_trackbg1"@,
            ThemeColor::midi_inline_trackbg2 => "midi_inline_trackbg2"@,
            ThemeColor::midioct_inline => "midioct_inline"@,
            ThemeColor::midi_endpt => "midi_endpt"@,
            ThemeColor::midi_notebg => "midi_notebg"@,
            ThemeColor::midi_notefg => "midi_notefg"@,
            ThemeColor::midi_notemute => "midi_notemute"@,
            ThemeColor::midi_notemute_sel => "midi_notemute_sel"@,
            ThemeColor::midi_itemctl => "midi_itemctl"@,
            ThemeColor::midi_ofsn => "midi_ofsn"@,
            ThemeColor::midi_ofsnsel => "midi_ofsnsel"@,
            ThemeColor::midi_editcurs => "midi_editcurs"@,
            ThemeColor::midi_pkey1 => "midi_pkey1"@,
            ThemeColor::midi_pkey2 => "midi_pkey2"@,
            ThemeColor::midi_pkey3 => "midi_pkey3"@,
            ThemeColor::midi_noteon_flash => "midi_noteon_flash"@,
            ThemeColor::midi_leftbg => "midi_leftbg"@,
            ThemeColor::midifont_col_light_unsel => "midifont_col_light_unsel"@,
            ThemeColor::midifont_col_dark_unsel => "midifont_col_dark_unsel"@,
            ThemeColor::midifont_mode_unsel => "midifont_mode_unsel"@,
            ThemeColor::midifont_col_light => "midifont_col_light"@,
            ThemeColor::midifont_col_dark => "midifont_col_dark"@,
            ThemeColor::midifont_mode => "midifont_mode"@,
            ThemeColor::score_bg => "score_bg"@,
            ThemeColor::score_fg => "score_fg"@,
            ThemeColor::score_sel => "score_sel"@,
            ThemeColor::score_timesel => "score_timesel"@,
            ThemeColor::score_loop => "score_loop"@,
            ThemeColor::midieditorlist_bg => "midieditorlist_bg"@,
            ThemeColor::midieditorlist_fg => "midieditorlist_fg"@,
            ThemeColor::midieditorlist_grid => "midieditorlist_grid"@,
            ThemeColor::midieditorlist_selbg => "midieditorlist_selbg"@,
            ThemeColor::midieditorlist_selfg => "midieditorlist_selfg"@,
            ThemeColor::midieditorlist_seliabg => "midieditorlist_seliabg"@,
            ThemeColor::midieditorlist_seliafg => "midieditorlist_seliafg"@,
            ThemeColor::midieditorlist_bg2 => "midieditorlist_bg2"@,
            ThemeColor::midieditorlist_fg2 => "midieditorlist_fg2"@,
            ThemeColor::midieditorlist_selbg2 => "midieditorlist_selbg2"@,
            ThemeColor::midieditorlist_selfg2 => "midieditorlist_selfg2"@,
            ThemeColor::col_explorer_sel => "col_explorer_sel"@,
            ThemeColor::col_explorer_seldm => "col_explorer_seldm"@,
            ThemeColor::col_explorer_seledge => "col_explorer_seledge"@,
            ThemeColor::explorer_grid => "explorer_grid"@,
            ThemeColor::explorer_pitchtext => "explorer_pitchtext"@,
            ThemeColor::docker_shadow => "docker_shadow"@,
            ThemeColor::docker_selface => "docker_selface"@,
            ThemeColor::docker_unselface => "docker_unselface"@,
            ThemeColor::docker_text => "docker_text"@,
            ThemeColor::docker_text_sel => "docker_text_sel"@,
            ThemeColor::docker_bg => "docker_bg"@,
            ThemeColor::windowtab_bg => "windowtab_bg"@,
            ThemeColor::auto_item_unsel => "auto_item_unsel"@,
            ThemeColor::col_env1 => "col_env1"@,
            ThemeColor::col_env2 => "col_env2"@,
            ThemeColor::env_trim_vol => "env_trim_vol"@,
            ThemeColor::col_env3 => "col_env3"@,
            ThemeColor::col_env4 => "col_env4"@,
            ThemeColor::env_track_mute => "env_track_mute"@,
            ThemeColor::col_env5 => "col_env5"@,
            ThemeColor::col_env6 => "col_env6"@,
            ThemeColor::col_env7 => "col_env7"@,
            ThemeColor::col_env8 => "col_env8"@,
            ThemeColor::col_env9 => "col_env9"@,
            ThemeColor::col_env10 => "col_env10"@,
            ThemeColor::env_sends_mute => "env_sends_mute"@,
            ThemeColor::col_env11 => "col_env11"@,
            ThemeColor::col_env12 => "col_env12"@,
            ThemeColor::col_env13 => "col_env13"@,
            ThemeColor::col_env14 => "col_env14"@,
            ThemeColor::col_env15 => "col_env15"@,
            ThemeColor::col_env16 => "col_env16"@,
            ThemeColor::env_item_vol => "env_item_vol"@,
            ThemeColor::env_item_pan => "env_item_pan"@,
            ThemeColor::env_item_mute => "env_item_mute"@,
            ThemeColor::env_item_pitch => "env_item_pitch"@,
            ThemeColor::wiring_grid2 => "wiring_grid2"@,
            ThemeColor::wiring_grid => "wiring_grid"@,
            ThemeColor::wiring_border => "wiring_border"@,
            ThemeColor::wiring_tbg => "wiring_tbg"@,
            ThemeColor::wiring_ticon => "wiring_ticon"@,
            ThemeColor::wiring_recbg => "wiring_recbg"@,
            ThemeColor::wiring_recitem => "wiring_recitem"@,
            ThemeColor::wiring_media => "wiring_media"@,
            ThemeColor::wiring_recv => "wiring_recv"@,
            ThemeColor::wiring_send => "wiring_send"@,
            ThemeColor::wiring_fader => "wiring_fader"@,
            ThemeColor::wiring_parent => "wiring_parent"@,
            ThemeColor::wiring_parentwire_border => "wiring_parentwire_border"@,
            ThemeColor::wiring_parentwire_master => "wiring_parentwire_master"@,
            ThemeColor::wiring_parentwire_folder => "wiring_parentwire_folder"@,
            ThemeColor::wiring_pin_normal => "wiring_pin_normal"@,
            ThemeColor::wiring_pin_connected => "wiring_pin_connected"@,
            ThemeColor::wiring_pin_disconnected => "wiring_pin_disconnected"@,
            ThemeColor::wiring_horz_col => "wiring_horz_col"@,
            ThemeColor::wiring_sendwire => "wiring_sendwire"@,
            ThemeColor::wiring_hwoutwire => "wiring_hwoutwire"@,
            ThemeColor::wiring_recinputwire => "wiring_recinputwire"@,
            ThemeColor::wiring_hwout => "wiring_hwout"@,
            ThemeColor::wiring_recinput => "wiring_recinput"@,
            ThemeColor::wiring_activity => "wiring_activity"@,
            ThemeColor::autogroup => "autogroup"@,
            ThemeColor::group_0 => "group_0"@,
            ThemeColor::group_1 => "group_1"@,
            ThemeColor::group_2 => "group_2"@,
            ThemeColor::group_3 => "group_3"@,
            ThemeColor::group_4 => "group_4"@,
            ThemeColor::group_5 => "group_5"@,
            ThemeColor::group_6 => "group_6"@,
            ThemeColor::group_7 => "group_7"@,
            ThemeColor::group_8 => "group_8"@,
            ThemeColor::group_9 => "group_9"@,
            ThemeColor::group_10 => "group_10"@,
            ThemeColor::group_11 => "group_11"@,
            ThemeColor::group_12 => "group_12"@,
            ThemeColor::group_13 => "group_13"@,
            ThemeColor::group_14 => "group_14"@,
            ThemeColor::group_15 => "group_15"@,
            ThemeColor::group_16 => "group_16"@,
            ThemeColor::group_17 => "group_17"@,
            ThemeColor::group_18 => "group_18"@,
            ThemeColor::group_19 => "group_19"@,
            ThemeColor::group_20 => "group_20"@,
            ThemeColor::group_21 => "group_21"@,
            ThemeColor::group_22 => "group_22"@,
            ThemeColor::group_23 => "group_23"@,
            ThemeColor::group_24 => "group_24"@,
            ThemeColor::group_25 => "group_25"@,
            ThemeColor::group_26 => "group_26"@,
            ThemeColor::group_27 => "group_27"@,
            ThemeColor::group_28 => "group_28"@,
            ThemeColor::group_29 => "group_29"@,
            ThemeColor::group_30 => "group_30"@,
            ThemeColor::group_31 => "group_31"@,
            ThemeColor::group_32 => "group_32"@,
            ThemeColor::group_33 => "group_33"@,
            ThemeColor::group_34 => "group_34"@,
            ThemeColor::group_35 => "group_35"@,
            ThemeColor::group_36 => "group_36"@,
            ThemeColor::group_37 => "group_37"@,
            ThemeColor::group_38 => "group_38"@,
            ThemeColor::group_39 => "group_39"@,
            ThemeColor::group_40 => "group_40"@,
            ThemeColor::group_41 => "group_41"@,
            ThemeColor::group_42 => "group_42"@,
            ThemeColor::group_43 => "group_43"@,
            ThemeColor::group_44 => "group_44"@,
            ThemeColor::group_45 => "group_45"@,
            ThemeColor::group_46 => "group_46"@,
            ThemeColor::group_47 => "group_47"@,
            ThemeColor::group_48 => "group_48"@,
            ThemeColor::group_49 => "group_49"@,
            ThemeColor::group_50 => "group_50"@,
            ThemeColor::group_51 => "group_51"@,
            ThemeColor::group_52 => "group_52"@,
            ThemeColor::group_53 => "group_53"@,
            ThemeColor::group_54 => "group_54"@,
            ThemeColor::group_55 => "group_55"@,
            ThemeColor::group_56 => "group_56"@,
            ThemeColor::group_57 => "group_57"@,
            ThemeColor::group_58 => "group_58"@,
            ThemeColor::group_59 => "group_59"@,
            ThemeColor::group_60 => "group_60"@,
            ThemeColor::group_61 => "group_61"@,
            ThemeColor::group_62 => "group_62"@,
            ThemeColor::group_63 => "group_63"@,
        }
    }

    /// The name of the color in the theme file, as the variant is written.
    pub fn name(&self) -> (r: String)
        ensures
            r@ == self.spec_name(),
    {
        match self {
            ThemeColor::col_main_bg2 => String::from_str("col_main_bg2"),
            ThemeColor::col_main_text2 => String::from_str("col_main_text2"),
            ThemeColor::col_main_textshadow => String::from_str("col_main_textshadow"),
            ThemeColor::col_main_3dhl => String::from_str("col_main_3dhl"),
            ThemeColor::col_main_3dsh => String::from_str("col_main_3dsh"),
            ThemeColor::col_main_resize2 => String::from_str("col_main_resize2"),
            ThemeColor::col_main_text => String::from_str("col_main_text"),
            ThemeColor::col_main_bg => String::from_str("col_main_bg"),
            ThemeColor::col_main_editbk => String::from_str("col_main_editbk"),
            ThemeColor::col_nodarkmodemiscwnd => String::from_str("col_nodarkmodemiscwnd"),
            ThemeColor::col_transport_editbk => String::from_str("col_transport_editbk"),
            ThemeColor::col_toolbar_text => String::from_str("col_toolbar_text"),
            ThemeColor::col_toolbar_text_on => String::from_str("col_toolbar_text_on"),
            ThemeColor::col_toolbar_frame => String::from_str("col_toolbar_frame"),
            ThemeColor::toolbararmed_color => String::from_str("toolbararmed_color"),
            ThemeColor::toolbararmed_drawmode => String::from_str("toolbararmed_drawmode"),
            ThemeColor::io_text => String::from_str("io_text"),
            ThemeColor::io_3dhl => String::from_str("io_3dhl"),
            ThemeColor::io_3dsh => String::from_str("io_3dsh"),
            ThemeColor::genlist_bg => String::from_str("genlist_bg"),
            ThemeColor::genlist_fg => String::from_str("genlist_fg"),
            ThemeColor::genlist_grid => String::from_str("genlist_grid"),
            ThemeColor::genlist_selbg => String::from_str("genlist_selbg"),
            ThemeColor::genlist_selfg => String::from_str("genlist_selfg"),
            ThemeColor::genlist_seliabg => String::from_str("genlist_seliabg"),
            ThemeColor::genlist_seliafg => String::from_str("genlist_seliafg"),
            ThemeColor::genlist_hilite => String::from_str("genlist_hilite"),
            ThemeColor::genlist_hilite_sel => String::from_str("genlist_hilite_sel"),
            ThemeColor::col_buttonbg => String::from_str("col_buttonbg"),
            ThemeColor::col_tcp_text => String::from_str("col_tcp_text"),
            ThemeColor::col_tcp_textsel => String::from_str("col_tcp_textsel"),
            ThemeColor::col_seltrack => String::from_str("col_seltrack"),
            ThemeColor::col_seltrack2 => String::from_str("col_seltrack2"),
            ThemeColor::tcplocked_color => String::from_str("tcplocked_color"),
            ThemeColor::tcplocked_drawmode => String::from_str("tcplocked_drawmode"),
            ThemeColor::col_tracklistbg => String::from_str("col_tracklistbg"),
            ThemeColor::col_mixerbg => String::from_str("col_mixerbg"),
            ThemeColor::col_arrangebg => String::from_str("col_arrangebg"),
            ThemeColor::arrange_vgrid => String::from_str("arrange_vgrid"),
            ThemeColor::col_fadearm => String::from_str("col_fadearm"),
            ThemeColor::col_fadearm2 => String::from_str("col_fadearm2"),
            ThemeColor::col_fadearm3 => String::from_str("col_fadearm3"),
            ThemeColor::col_tl_fg => String::from_str("col_tl_fg"),
            ThemeColor::col_tl_fg2 => String::from_str("col_tl_fg2"),
            ThemeColor::col_tl_bg => String::from_str("col_tl_bg"),
            ThemeColor::col_tl_bgsel => String::from_str("col_tl_bgsel"),
            ThemeColor::timesel_drawmode => String::from_str("timesel_drawmode"),
            ThemeColor::col_tl_bgsel2 => String::from_str("col_tl_bgsel2"),
            ThemeColor::col_trans_bg => String::from_str("col_trans_bg"),
            ThemeColor::col_trans_fg => String::from_str("col_trans_fg"),
            ThemeColor::playrate_edited => String::from_str("playrate_edited"),
            ThemeColor::selitem_dot => String::from_str("selitem_dot"),
            ThemeColor::col_mi_label => String::from_str("col_mi_label"),
            ThemeColor::col_mi_label_sel => String::from_str("col_mi_label_sel"),
            ThemeColor::col_mi_label_float => String::from_str("col_mi_label_float"),
            ThemeColor::col_mi_label_float_sel => String::from_str("col_mi_label_float_sel"),
            ThemeColor::col_mi_bg => String::from_str("col_mi_bg"),
            ThemeColor::col_mi_bg2 => String::from_str("col_mi_bg2"),
            ThemeColor::col_tr1_itembgsel => String::from_str("col_tr1_itembgsel"),
            ThemeColor::col_tr2_itembgsel => String::from_str("col_tr2_itembgsel"),
            ThemeColor::itembg_drawmode => String::from_str("itembg_drawmode"),
            ThemeColor::col_tr1_peaks => String::from_str("col_tr1_peaks"),
            ThemeColor::col_tr2_peaks => String::from_str("col_tr2_peaks"),
            ThemeColor::col_tr1_ps2 => String::from_str("col_tr1_ps2"),
            ThemeColor::col_tr2_ps2 => String::from_str("col_tr2_ps2"),
            ThemeColor::col_peaksedge => String::from_str("col_peaksedge"),
            ThemeColor::col_peaksedge2 => String::from_str("col_peaksedge2"),
            ThemeColor::col_peaksedgesel => String::from_str("col_peaksedgesel"),
            ThemeColor::col_peaksedgesel2 => String::from_str("col_peaksedgesel2"),
            ThemeColor::cc_chase_drawmode => String::from_str("cc_chase_drawmode"),
            ThemeColor::col_peaksfade => String::from_str("col_peaksfade"),
            ThemeColor::col_peaksfade2 => String::from_str("col_peaksfade2"),
            ThemeColor::col_mi_fades => String::from_str("col_mi_fades"),
            ThemeColor::fadezone_color => String::from_str("fadezone_color"),
            ThemeColor::fadezone_drawmode => String::from_str("fadezone_drawmode"),
            ThemeColor::fadearea_color => String::from_str("fadearea_color"),
            ThemeColor::fadearea_drawmode => String::from_str("fadearea_drawmode"),
            ThemeColor::col_mi_fade2 => String::from_str("col_mi_fade2"),
            ThemeColor::col_mi_fade2_drawmode => String::from_str("col_mi_fade2_drawmode"),
            ThemeColor::item_grouphl => String::from_str("item_grouphl"),
            ThemeColor::col_offlinetext => String::from_str("col_offlinetext"),
            ThemeColor::col_stretchmarker => String::from_str("col_stretchmarker"),
            ThemeColor::col_stretchmarker_h0 => String::from_str("col_stretchmarker_h0"),
            ThemeColor::col_stretchmarker_h1 => String::from_str("col_stretchmarker_h1"),
            ThemeColor::col_stretchmarker_h2 => String::from_str("col_stretchmarker_h2"),
            ThemeColor::col_stretchmarker_b => String::from_str("col_stretchmarker_b"),
            ThemeColor::col_stretchmarkerm => String::from_str("col_stretchmarkerm"),
            ThemeColor::col_stretchmarker_text => String::from_str("col_stretchmarker_text"),
            ThemeColor::col_stretchmarker_tm => String::from_str("col_stretchmarker_tm"),
            ThemeColor::take_marker => String::from_str("take_marker"),
            ThemeColor::selitem_tag => String::from_str("selitem_tag"),
            ThemeColor::activetake_tag => String::from_str("activetake_tag"),
            ThemeColor::col_tr1_bg => String::from_str("col_tr1_bg"),
            ThemeColor::col_tr2_bg => String::from_str("col_tr2_bg"),
            ThemeColor::selcol_tr1_bg => String::from_str("selcol_tr1_bg"),
            ThemeColor::selcol_tr2_bg => String::from_str("selcol_tr2_bg"),
            ThemeColor::track_lane_tabcol => String::from_str("track_lane_tabcol"),
            ThemeColor::track_lanesolo_tabcol => String::from_str("track_lanesolo_tabcol"),
            ThemeColor::track_lanesolo_text => String::from_str("track_lanesolo_text"),
            ThemeColor::track_lane_gutter => String::from_str("track_lane_gutter"),
            ThemeColor::track_lane_gutter_drawmode => String::from_str("track_lane_gutter_drawmode"),
            ThemeColor::col_tr1_divline => String::from_str("col_tr1_divline"),
            ThemeColor::col_tr2_divline => String::from_str("col_tr2_divline"),
            ThemeColor::col_envlane1_divline => String::from_str("col_envlane1_divline"),
            ThemeColor::col_envlane2_divline => String::from_str("col_envlane2_divline"),
            ThemeColor::mute_overlay_col => String::from_str("mute_overlay_col"),
            ThemeColor::mute_overlay_mode => String::from_str("mute_overlay_mode"),
            ThemeColor::inactive_take_overlay_col => String::from_str("inactive_take_overlay_col"),
            ThemeColor::inactive_take_overlay_mode => String::from_str("inactive_take_overlay_mode"),
            ThemeColor::locked_overlay_col => String::from_str("locked_overlay_col"),
            ThemeColor::locked_overlay_mode => String::from_str("locked_overlay_mode"),
            ThemeColor::marquee_fill => String::from_str("marquee_fill"),
            ThemeColor::marquee_drawmode => String::from_str("marquee_drawmode"),
            ThemeColor::marquee_outline => String::from_str("marquee_outline"),
            ThemeColor::marqueezoom_fill => String::from_str("marqueezoom_fill"),
            ThemeColor::marqueezoom_drawmode => String::from_str("marqueezoom_drawmode"),
            ThemeColor::marqueezoom_outline => String::from_str("marqueezoom_outline"),
            ThemeColor::areasel_fill => String::from_str("areasel_fill"),
            ThemeColor::areasel_drawmode => String::from_str("areasel_drawmode"),
            ThemeColor::areasel_outline => String::from_str("areasel_outline"),
            ThemeColor::areasel_outlinemode => String::from_str("areasel_outlinemode"),
            ThemeColor::linkedlane_fill => String::from_str("linkedlane_fill"),
            ThemeColor::linkedlane_fillmode => String::from_str("linkedlane_fillmode"),
            ThemeColor::linkedlane_outline => String::from_str("linkedlane_outline"),
            ThemeColor::linkedlane_outlinemode => String::from_str("linkedlane_outlinemode"),
            ThemeColor::linkedlane_unsynced => String::from_str("linkedlane_unsynced"),
            ThemeColor::linkedlane_unsynced_mode => String::from_str("linkedlane_unsynced_mode"),
            ThemeColor::col_cursor => String::from_str("col_cursor"),
            ThemeColor::col_cursor2 => String::from_str("col_cursor2"),
            ThemeColor::playcursor_color => String::from_str("playcursor_color"),
            ThemeColor::playcursor_drawmode => String::from_str("playcursor_drawmode"),
            ThemeColor::col_gridlines2 => String::from_str("col_gridlines2"),
            ThemeColor::col_gridlines2dm => String::from_str("col_gridlines2dm"),
            ThemeColor::col_gridlines3 => String::from_str("col_gridlines3"),
            ThemeColor::col_gridlines3dm => String::from_str("col_gridlines3dm"),
            ThemeColor::col_gridlines => String::from_str("col_gridlines"),
            ThemeColor::col_gridlines1dm => String::from_str("col_gridlines1dm"),
            ThemeColor::guideline_color => String::from_str("guideline_color"),
            ThemeColor::guideline_drawmode => String::from_str("guideline_drawmode"),
            ThemeColor::region => String::from_str("region"),
            ThemeColor::region_lane_bg => String::from_str("region_lane_bg"),
            ThemeColor::region_lane_text => String::from_str("region_lane_text"),
            ThemeColor::marker => String::from_str("marker"),
            ThemeColor::marker_lane_bg => String::from_str("marker_lane_bg"),
            ThemeColor::marker_lane_text => String::from_str("marker_lane_text"),
            ThemeColor::col_tsigmark => String::from_str("col_tsigmark"),
            ThemeColor::ts_lane_bg => String::from_str("ts_lane_bg"),
            ThemeColor::ts_lane_text => String::from_str("ts_lane_text"),
            ThemeColor::timesig_sel_bg => String::from_str("timesig_sel_bg"),
            ThemeColor::col_routinghl1 => String::from_str("col_routinghl1"),
            ThemeColor::col_routinghl2 => String::from_str("col_routinghl2"),
            ThemeColor::col_routingact => String::from_str("col_routingact"),
            ThemeColor::col_vudoint => String::from_str("col_vudoint"),
            ThemeColor::col_vuclip => String::from_str("col_vuclip"),
            ThemeColor::col_vutop => String::from_str("col_vutop"),
            ThemeColor::col_vumid => String::from_str("col_vumid"),
            ThemeColor::col_vubot => String::from_str("col_vubot"),
            ThemeColor::col_vuintcol => String::from_str("col_vuintcol"),
            ThemeColor::vu_gr_bgcol => String::from_str("vu_gr_bgcol"),
            ThemeColor::vu_gr_fgcol => String::from_str("vu_gr_fgcol"),
            ThemeColor::col_vumidi => String::from_str("col_vumidi"),
            ThemeColor::col_vuind1 => String::from_str("col_vuind1"),
            ThemeColor::col_vuind2 => String::from_str("col_vuind2"),
            ThemeColor::col_vuind3 => String::from_str("col_vuind3"),
            ThemeColor::col_vuind4 => String::from_str("col_vuind4"),
            ThemeColor::mcp_sends_normal => String::from_str("mcp_sends_normal"),
            ThemeColor::mcp_sends_muted => String::from_str("mcp_sends_muted"),
            ThemeColor::mcp_send_midihw => String::from_str("mcp_send_midihw"),
            ThemeColor::mcp_sends_levels => String::from_str("mcp_sends_levels"),
            ThemeColor::mcp_fx_normal => String::from_str("mcp_fx_normal"),
            ThemeColor::mcp_fx_bypassed => String::from_str("mcp_fx_bypassed"),
            ThemeColor::mcp_fx_offlined => String::from_str("mcp_fx_offlined"),
            ThemeColor::mcp_fxparm_normal => String::from_str("mcp_fxparm_normal"),
            ThemeColor::mcp_fxparm_bypassed => String::from_str("mcp_fxparm_bypassed"),
            ThemeColor::mcp_fxparm_offlined => String::from_str("mcp_fxparm_offlined"),
            ThemeColor::tcp_list_scrollbar => String::from_str("tcp_list_scrollbar"),
            ThemeColor::tcp_list_scrollbar_mode => String::from_str("tcp_list_scrollbar_mode"),
            ThemeColor::tcp_list_scrollbar_mouseover => String::from_str("tcp_list_scrollbar_mouseover"),
            ThemeColor::tcp_list_scrollbar_mouseover_mode => String::from_str("tcp_list_scrollbar_mouseover_mode"),
            ThemeColor::mcp_list_scrollbar => String::from_str("mcp_list_scrollbar"),
            ThemeColor::mcp_list_scrollbar_mode => String::from_str("mcp_list_scrollbar_mode"),
            ThemeColor::mcp_list_scrollbar_mouseover => String::from_str("mcp_list_scrollbar_mouseover"),
            ThemeColor::mcp_list_scrollbar_mouseover_mode => String::from_str("mcp_list_scrollbar_mouseover_mode"),
            ThemeColor::midi_rulerbg => String::from_str("midi_rulerbg"),
            ThemeColor::midi_rulerfg => String::from_str("midi_rulerfg"),
            ThemeColor::midi_grid2 => String::from_str("midi_grid2"),
            ThemeColor::midi_griddm2 => String::from_str("midi_griddm2"),
            ThemeColor::midi_grid3 => String::from_str("midi_grid3"),
            ThemeColor::midi_griddm3 => String::from_str("midi_griddm3"),
            ThemeColor::midi_grid1 => String::from_str("midi_grid1"),
            ThemeColor::midi_griddm1 => String::from_str("midi_griddm1"),
            ThemeColor::midi_trackbg1 => String::from_str("midi_trackbg1"),
            ThemeColor::midi_trackbg2 => String::from_str("midi_trackbg2"),
            ThemeColor::midi_trackbg_outer1 => String::from_str("midi_trackbg_outer1"),
            ThemeColor::midi_trackbg_outer2 => String::from_str("midi_trackbg_outer2"),
            ThemeColor::midi_selpitch1 => String::from_str("midi_selpitch1"),
            ThemeColor::midi_selpitch2 => String::from_str("midi_selpitch2"),
            ThemeColor::midi_selbg => String::from_str("midi_selbg"),
            ThemeColor::midi_selbg_drawmode => String::from_str("midi_selbg_drawmode"),
            ThemeColor::midi_gridhc => String::from_str("midi_gridhc"),
            ThemeColor::midi_gridhcdm => String::from_str("midi_gridhcdm"),
            ThemeColor::midi_gridh => String::from_str("midi_gridh"),
            ThemeColor::midi_gridhdm => String::from_str("midi_gridhdm"),
            ThemeColor::midi_ccbut => String::from_str("midi_ccbut"),
            ThemeColor::midi_ccbut_text => String::from_str("midi_ccbut_text"),
            ThemeColor::midi_ccbut_arrow => String::from_str("midi_ccbut_arrow"),
            ThemeColor::midioct => String::from_str("midioct"),
            ThemeColor::midi_inline_trackbg1 => String::from_str("midi_inline_trackbg1"),
            ThemeColor::midi_inline_trackbg2 => String::from_str("midi_inline_trackbg2"),
            ThemeColor::midioct_inline => String::from_str("midioct_inline"),
            ThemeColor::midi_endpt => String::from_str("midi_endpt"),
            ThemeColor::midi_notebg => String::from_str("midi_notebg"),
            ThemeColor::midi_notefg => String::from_str("midi_notefg"),
            ThemeColor::midi_notemute => String::from_str("midi_notemute"),
            ThemeColor::midi_notemute_sel => String::from_str("midi_notemute_sel"),
            ThemeColor::midi_itemctl => String::from_str("midi_itemctl"),
            ThemeColor::midi_ofsn => String::from_str("midi_ofsn"),
            ThemeColor::midi_ofsnsel => String::from_str("midi_ofsnsel"),
            ThemeColor::midi_editcurs => String::from_str("midi_editcurs"),
            ThemeColor::midi_pkey1 => String::from_str("midi_pkey1"),
            ThemeColor::midi_pkey2 => String::from_str("midi_pkey2"),
            ThemeColor::midi_pkey3 => String::from_str("midi_pkey3"),
            ThemeColor::midi_noteon_flash => String::from_str("midi_noteon_flash"),
            ThemeColor::midi_leftbg => String::from_str("midi_leftbg"),
            ThemeColor::midifont_col_light_unsel => String::from_str("midifont_col_light_unsel"),
            ThemeColor::midifont_col_dark_unsel => String::from_str("midifont_col_dark_unsel"),
            ThemeColor::midifont_mode_unsel => String::from_str("midifont_mode_unsel"),
            ThemeColor::midifont_col_light => String::from_str("midifont_col_light"),
            ThemeColor::midifont_col_dark => String::from_str("midifont_col_dark"),
            ThemeColor::midifont_mode => String::from_str("midifont_mode"),
            ThemeColor::score_bg => String::from_str("score_bg"),
            ThemeColor::score_fg => String::from_str("score_fg"),
            ThemeColor::score_sel => String::from_str("score_sel"),
            ThemeColor::score_timesel => String::from_str("score_timesel"),
            ThemeColor::score_loop => String::from_str("score_loop"),
            ThemeColor::midieditorlist_bg => String::from_str("midieditorlist_bg"),
            ThemeColor::midieditorlist_fg => String::from_str("midieditorlist_fg"),
            ThemeColor::midieditorlist_grid => String::from_str("midieditorlist_grid"),
            ThemeColor::midieditorlist_selbg => String::from_str("midieditorlist_selbg"),
            ThemeColor::midieditorlist_selfg => String::from_str("midieditorlist_selfg"),
            ThemeColor::midieditorlist_seliabg => String::from_str("midieditorlist_seliabg"),
            ThemeColor::midieditorlist_seliafg => String::from_str("midieditorlist_seliafg"),
            ThemeColor::midieditorlist_bg2 => String::from_str("midieditorlist_bg2"),
            ThemeColor::midieditorlist_fg2 => String::from_str("midieditorlist_fg2"),
            ThemeColor::midieditorlist_selbg2 => String::from_str("midieditorlist_selbg2"),
            ThemeColor::midieditorlist_selfg2 => String::from_str("midieditorlist_selfg2"),
            ThemeColor::col_explorer_sel => String::from_str("col_explorer_sel"),
            ThemeColor::col_explorer_seldm => String::from_str("col_explorer_seldm"),
            ThemeColor::col_explorer_seledge => String::from_str("col_explorer_seledge"),
            ThemeColor::explorer_grid => String::from_str("explorer_grid"),
            ThemeColor::explorer_pitchtext => String::from_str("explorer_pitchtext"),
            ThemeColor::docker_shadow => String::from_str("docker_shadow"),
            ThemeColor::docker_selface => String::from_str("docker_selface"),
            ThemeColor::docker_unselface => String::from_str("docker_unselface"),
            ThemeColor::docker_text => String::from_str("docker_text"),
            ThemeColor::docker_text_sel => String::from_str("docker_text_sel"),
            ThemeColor::docker_bg => String::from_str("docker_bg"),
            ThemeColor::windowtab_bg => String::from_str("windowtab_bg"),
            ThemeColor::auto_item_unsel => String::from_str("auto_item_unsel"),
            ThemeColor::col_env1 => String::from_str("col_env1"),
            ThemeColor::col_env2 => String::from_str("col_env2"),
            ThemeColor::env_trim_vol => String::from_str("env_trim_vol"),
            ThemeColor::col_env3 => String::from_str("col_env3"),
            ThemeColor::col_env4 => String::from_str("col_env4"),
            ThemeColor::env_track_mute => String::from_str("env_track_mute"),
            ThemeColor::col_env5 => String::from_str("col_env5"),
            ThemeColor::col_env6 => String::from_str("col_env6"),
            ThemeColor::col_env7 => String::from_str("col_env7"),
            ThemeColor::col_env8 => String::from_str("col_env8"),
            ThemeColor::col_env9 => String::from_str("col_env9"),
            ThemeColor::col_env10 => String::from_str("col_env10"),
            ThemeColor::env_sends_mute => String::from_str("env_sends_mute"),
            ThemeColor::col_env11 => String::from_str("col_env11"),
            ThemeColor::col_env12 => String::from_str("col_env12"),
            ThemeColor::col_env13 => String::from_str("col_env13"),
            ThemeColor::col_env14 => String::from_str("col_env14"),
            ThemeColor::col_env15 => String::from_str("col_env15"),
            ThemeColor::col_env16 => String::from_str("col_env16"),
            ThemeColor::env_item_vol => String::from_str("env_item_vol"),
            ThemeColor::env_item_pan => String::from_str("env_item_pan"),
            ThemeColor::env_item_mute => String::from_str("env_item_mute"),
            ThemeColor::env_item_pitch => String::from_str("env_item_pitch"),
            ThemeColor::wiring_grid2 => String::from_str("wiring_grid2"),
            ThemeColor::wiring_grid => String::from_str("wiring_grid"),
            ThemeColor::wiring_border => String::from_str("wiring_border"),
            ThemeColor::wiring_tbg => String::from_str("wiring_tbg"),
            ThemeColor::wiring_ticon => String::from_str("wiring_ticon"),
            ThemeColor::wiring_recbg => String::from_str("wiring_recbg"),
            ThemeColor::wiring_recitem => String::from_str("wiring_recitem"),
            ThemeColor::wiring_media => String::from_str("wiring_media"),
            ThemeColor::wiring_recv => String::from_str("wiring_recv"),
            ThemeColor::wiring_send => String::from_str("wiring_send"),
            ThemeColor::wiring_fader => String::from_str("wiring_fader"),
            ThemeColor::wiring_parent => String::from_str("wiring_parent"),
            ThemeColor::wiring_parentwire_border => String::from_str("wiring_parentwire_border"),
            ThemeColor::wiring_parentwire_master => String::from_str("wiring_parentwire_master"),
            ThemeColor::wiring_parentwire_folder => String::from_str("wiring_parentwire_folder"),
            ThemeColor::wiring_pin_normal => String::from_str("wiring_pin_normal"),
            ThemeColor::wiring_pin_connected => String::from_str("wiring_pin_connected"),
            ThemeColor::wiring_pin_disconnected => String::from_str("wiring_pin_disconnected"),
            ThemeColor::wiring_horz_col => String::from_str("wiring_horz_col"),
            ThemeColor::wiring_sendwire => String::from_str("wiring_sendwire"),
            ThemeColor::wiring_hwoutwire => String::from_str("wiring_hwoutwire"),
            ThemeColor::wiring_recinputwire => String::from_str("wiring_recinputwire"),
            ThemeColor::wiring_hwout => String::from_str("wiring_hwout"),
            ThemeColor::wiring_recinput => String::from_str("wiring_recinput"),
            ThemeColor::wiring_activity => String::from_str("wiring_activity"),
            ThemeColor::autogroup => String::from_str("autogroup"),
            ThemeColor::group_0 => String::from_str("group_0"),
            ThemeColor::group_1 => String::from_str("group_1"),
            ThemeColor::group_2 => String::from_str("group_2"),
            ThemeColor::group_3 => String::from_str("group_3"),
            ThemeColor::group_4 => String::from_str("group_4"),
            ThemeColor::group_5 => String::from_str("group_5"),
            ThemeColor::group_6 => String::from_str("group_6"),
            ThemeColor::group_7 => String::from_str("group_7"),
            ThemeColor::group_8 => String::from_str("group_8"),
            ThemeColor::group_9 => String::from_str("group_9"),
            ThemeColor::group_10 => String::from_str("group_10"),
            ThemeColor::group_11 => String::from_str("group_11"),
            ThemeColor::group_12 => String::from_str("group_12"),
            ThemeColor::group_13 => String::from_str("group_13"),
            ThemeColor::group_14 => String::from_str("group_14"),
            ThemeColor::group_15 => String::from_str("group_15"),
            ThemeColor::group_16 => String::from_str("group_16"),
            ThemeColor::group_17 => String::from_str("group_17"),
            ThemeColor::group_18 => String::from_str("group_18"),
            ThemeColor::group_19 => String::from_str("group_19"),
            ThemeColor::group_20 => String::from_str("group_20"),
            ThemeColor::group_21 => String::from_str("group_21"),
            ThemeColor::group_22 => String::from_str("group_22"),
            ThemeColor::group_23 => String::from_str("group_23"),
            ThemeColor::group_24 => String::from_str("group_24"),
            ThemeColor::group_25 => String::from_str("group_25"),
            ThemeColor::group_26 => String::from_str("group_26"),
            ThemeColor::group_27 => String::from_str("group_27"),
            ThemeColor::group_28 => String::from_str("group_28"),
            ThemeColor::group_29 => String::from_str("group_29"),
            ThemeColor::group_30 => String::from_str("group_30"),
            ThemeColor::group_31 => String::from_str("group_31"),
            ThemeColor::group_32 => String::from_str("group_32"),
            ThemeColor::group_33 => String::from_str("group_33"),
            ThemeColor::group_34 => String::from_str("group_34"),
            ThemeColor::group_35 => String::from_str("group_35"),
            ThemeColor::group_36 => String::from_str("group_36"),
            ThemeColor::group_37 => String::from_str("group_37"),
            ThemeColor::group_38 => String::from_str("group_38"),
            ThemeColor::group_39 => String::from_str("group_39"),
            ThemeColor::group_40 => String::from_str("group_40"),
            ThemeColor::group_41 => String::from_str("group_41"),
            ThemeColor::group_42 => String::from_str("group_42"),
            ThemeColor::group_43 => String::from_str("group_43"),
            ThemeColor::group_44 => String::from_str("group_44"),
            ThemeColor::group_45 => String::from_str("group_45"),
            ThemeColor::group_46 => String::from_str("group_46"),
            ThemeColor::group_47 => String::from_str("group_47"),
            ThemeColor::group_48 => String::from_str("group_48"),
            ThemeColor::group_49 => String::from_str("group_49"),
            ThemeColor::group_50 => String::from_str("group_50"),
            ThemeColor::group_51 => String::from_str("group_51"),
            ThemeColor::group_52 => String::from_str("group_52"),
            ThemeColor::group_53 => String::from_str("group_53"),
            ThemeColor::group_54 => String::from_str("group_54"),
            ThemeColor::group_55 => String::from_str("group_55"),
            ThemeColor::group_56 => String::from_str("group_56"),
            ThemeColor::group_57 => String::from_str("group_57"),
            ThemeColor::group_58 => String::from_str("group_58"),
            ThemeColor::group_59 => String::from_str("group_59"),
            ThemeColor::group_60 => String::from_str("group_60"),
            ThemeColor::group_61 => String::from_str("group_61"),
            ThemeColor::group_62 => String::from_str("group_62"),
            ThemeColor::group_63 => String::from_str("group_63"),
        }
    }
}

} // verus!
